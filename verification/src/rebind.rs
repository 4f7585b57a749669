use vstd::prelude::*;
use crate::action::ActionId;
use crate::button::Button;
use crate::button::ButtonTuple;
use crate::mouse::MouseConfig;
use crate::mouse::Size;
use crate::convert::expand_map;
use crate::convert::expanded_from;
use crate::table::ActionMap;
use crate::table::ButtonMap;
use crate::table::keys_unique;
use crate::table::map_of;
use crate::translator::InputTranslator;

verus! {

/// The edit-time representation of the bindings: a reverse table from actions
/// to button tuples, together with the mouse configuration. Freely
/// convertible to and from an [`crate::translator::InputTranslator`].
#[derive(Debug)]
pub struct InputRebind {
    pub(crate) actmap: ActionMap,
    pub(crate) mouse: MouseConfig,
}

impl InputRebind {
    /// The reverse table as a sequence of action/tuple pairs, in insertion
    /// order.
    pub closed spec fn tuple_seq(&self) -> Seq<(ActionId, ButtonTuple)> {
        self.actmap.seq()
    }

    /// The reverse table as a map from actions to button tuples.
    pub open spec fn actions(&self) -> Map<ActionId, ButtonTuple> {
        map_of(self.tuple_seq())
    }

    /// The mouse configuration.
    pub closed spec fn mouse_config(&self) -> MouseConfig {
        self.mouse
    }

    /// No action occurs twice in the reverse table. This invariant holds of
    /// every rebind: constructors establish it and every operation preserves
    /// it.
    #[verifier::type_invariant]
    pub open spec fn wf(self) -> bool {
        keys_unique(self.tuple_seq())
    }

    /// Creates a rebind from its parts.
    pub(crate) fn from_parts(actmap: ActionMap, mouse: MouseConfig) -> (r: InputRebind)
        requires
            actmap.wf(),
        ensures
            r.tuple_seq() == actmap.seq(),
            r.mouse_config() == mouse,
    {
        InputRebind { actmap, mouse }
    }

    /// Creates an empty rebind with the default mouse configuration for a
    /// viewport of the given size.
    pub fn new(size: Size) -> (r: InputRebind)
        ensures
            r.actions() == Map::<ActionId, ButtonTuple>::empty(),
            r.tuple_seq() == Seq::<(ActionId, ButtonTuple)>::empty(),
            r.mouse_config() == MouseConfig::initial(size),
    {
        InputRebind { actmap: ActionMap::new(), mouse: MouseConfig::new(size) }
    }

    /// Insert an action with an empty button tuple. If the action was already
    /// present, its tuple is reset to three empty slots and the old tuple is
    /// returned.
    pub fn insert_action(&mut self, action: ActionId) -> (prior: Option<ButtonTuple>)
        ensures
            final(self).actions() == old(self).actions().insert(
                action,
                ButtonTuple(None::<Button>, None::<Button>, None::<Button>),
            ),
            final(self).mouse_config() == old(self).mouse_config(),
            prior == if old(self).actions().contains_key(action) {
                Some(old(self).actions()[action])
            } else {
                None::<ButtonTuple>
            },
    {
        proof {
            use_type_invariant(&*self);
        }
        let mut table = ActionMap::new();
        std::mem::swap(&mut table, &mut self.actmap);
        let prior = table.set(action, ButtonTuple::new());
        self.actmap = table;
        prior
    }

    /// Insert an action bound to the given button tuple, which may be sparse
    /// or partial. If the action was already present, the old tuple is
    /// returned.
    pub fn insert_action_with_buttons(&mut self, action: ActionId, buttons: ButtonTuple) -> (prior:
        Option<ButtonTuple>)
        ensures
            final(self).actions() == old(self).actions().insert(action, buttons),
            final(self).mouse_config() == old(self).mouse_config(),
            prior == if old(self).actions().contains_key(action) {
                Some(old(self).actions()[action])
            } else {
                None::<ButtonTuple>
            },
    {
        proof {
            use_type_invariant(&*self);
        }
        let mut table = ActionMap::new();
        std::mem::swap(&mut table, &mut self.actmap);
        let prior = table.set(action, buttons);
        self.actmap = table;
        prior
    }

    /// The button tuple currently bound to an action, or `None` if the action
    /// has never been inserted.
    pub fn get_bindings(&self, action: ActionId) -> (r: Option<ButtonTuple>)
        ensures
            r == if self.actions().contains_key(action) {
                Some(self.actions()[action])
            } else {
                None::<ButtonTuple>
            },
    {
        proof {
            use_type_invariant(&*self);
        }
        self.actmap.get(action)
    }

    /// Whether mouse scroll along the x axis is inverted.
    pub fn get_x_scroll_inverted(&self) -> (r: bool)
        ensures
            r == self.mouse_config().x_scroll_inverted,
    {
        self.mouse.x_scroll_inverted
    }

    /// Set whether mouse scroll along the x axis is inverted.
    pub fn set_x_scroll_inverted(&mut self, invert: bool)
        ensures
            final(self).tuple_seq() == old(self).tuple_seq(),
            final(self).mouse_config() == (MouseConfig {
                x_scroll_inverted: invert,
                ..old(self).mouse_config()
            }),
    {
        proof {
            use_type_invariant(&*self);
        }
        self.mouse.x_scroll_inverted = invert;
    }

    /// Whether mouse scroll along the y axis is inverted.
    pub fn get_y_scroll_inverted(&self) -> (r: bool)
        ensures
            r == self.mouse_config().y_scroll_inverted,
    {
        self.mouse.y_scroll_inverted
    }

    /// Set whether mouse scroll along the y axis is inverted.
    pub fn set_y_scroll_inverted(&mut self, invert: bool)
        ensures
            final(self).tuple_seq() == old(self).tuple_seq(),
            final(self).mouse_config() == (MouseConfig {
                y_scroll_inverted: invert,
                ..old(self).mouse_config()
            }),
    {
        proof {
            use_type_invariant(&*self);
        }
        self.mouse.y_scroll_inverted = invert;
    }

    /// Whether mouse motion along the x axis is inverted.
    pub fn get_x_motion_inverted(&self) -> (r: bool)
        ensures
            r == self.mouse_config().x_motion_inverted,
    {
        self.mouse.x_motion_inverted
    }

    /// Set whether mouse motion along the x axis is inverted.
    pub fn set_x_motion_inverted(&mut self, invert: bool)
        ensures
            final(self).tuple_seq() == old(self).tuple_seq(),
            final(self).mouse_config() == (MouseConfig {
                x_motion_inverted: invert,
                ..old(self).mouse_config()
            }),
    {
        proof {
            use_type_invariant(&*self);
        }
        self.mouse.x_motion_inverted = invert;
    }

    /// Whether mouse motion along the y axis is inverted.
    pub fn get_y_motion_inverted(&self) -> (r: bool)
        ensures
            r == self.mouse_config().y_motion_inverted,
    {
        self.mouse.y_motion_inverted
    }

    /// Set whether mouse motion along the y axis is inverted.
    pub fn set_y_motion_inverted(&mut self, invert: bool)
        ensures
            final(self).tuple_seq() == old(self).tuple_seq(),
            final(self).mouse_config() == (MouseConfig {
                y_motion_inverted: invert,
                ..old(self).mouse_config()
            }),
    {
        proof {
            use_type_invariant(&*self);
        }
        self.mouse.y_motion_inverted = invert;
    }

    /// The viewport size used for calculating mouse positions.
    pub fn get_viewport_size(&self) -> (r: Size)
        ensures
            r == self.mouse_config().viewport_size,
    {
        self.mouse.viewport_size
    }

    /// Set the viewport size used for calculating mouse positions.
    pub fn set_viewport_size(&mut self, viewport_size: Size)
        ensures
            final(self).tuple_seq() == old(self).tuple_seq(),
            final(self).mouse_config() == (MouseConfig {
                viewport_size: viewport_size,
                ..old(self).mouse_config()
            }),
    {
        proof {
            use_type_invariant(&*self);
        }
        self.mouse.viewport_size = viewport_size;
    }
}

impl InputRebind {
    /// Convert the rebind into the runtime-fast representation, consuming
    /// it. The conversion is total: every button of every tuple becomes
    /// bound to its action, entries taken in reverse-table order, so that on
    /// a button claimed by several actions the last entry processed wins.
    #[verifier::loop_isolation(false)]
    pub fn into_translator(self) -> (t: InputTranslator)
        ensures
            expanded_from(t, self),
    {
        proof {
            use_type_invariant(&self);
        }
        let n = self.actmap.len();
        let mut fw = ButtonMap::new();
        let mut i: usize = 0;
        proof {
            assert(self.tuple_seq().take(0) =~= Seq::<(ActionId, ButtonTuple)>::empty());
        }
        while i < n
            invariant
                n == self.tuple_seq().len(),
                i <= n,
                fw.wf(),
                fw.map_view() == expand_map(self.tuple_seq().take(i as int)),
            decreases n - i,
        {
            let (action, tp) = self.actmap.pair_at(i);
            if let Some(b) = tp.0 {
                fw.set(b, action);
            }
            if let Some(b) = tp.1 {
                fw.set(b, action);
            }
            if let Some(b) = tp.2 {
                fw.set(b, action);
            }
            proof {
                assert(self.tuple_seq().take(i + 1).drop_last() =~= self.tuple_seq().take(
                    i as int,
                ));
                assert(self.tuple_seq().take(i + 1).last() == self.tuple_seq()[i as int]);
                assert(fw.map_view() == expand_map(self.tuple_seq().take(i + 1)));
            }
            i = i + 1;
        }
        proof {
            assert(self.tuple_seq().take(n as int) =~= self.tuple_seq());
        }
        InputTranslator::from_parts(fw, self.mouse)
    }
}

impl Clone for InputRebind {
    /// The clone holds the same action bindings, in the same order, and the
    /// same mouse configuration.
    fn clone(&self) -> (r: InputRebind)
        ensures
            r.tuple_seq() == self.tuple_seq(),
            r.mouse_config() == self.mouse_config(),
    {
        proof {
            use_type_invariant(&*self);
        }
        InputRebind { actmap: self.actmap.duplicate(), mouse: self.mouse }
    }
}

/// The default rebind holds no bindings and uses an 800 by 600 viewport.
impl Default for InputRebind {
    fn default() -> (r: InputRebind)
        ensures
            r.actions() == Map::<ActionId, ButtonTuple>::empty(),
            r.tuple_seq() == Seq::<(ActionId, ButtonTuple)>::empty(),
            r.mouse_config() == MouseConfig::initial(Size { width: 800, height: 600 }),
    {
        InputRebind::new(Size { width: 800, height: 600 })
    }
}

} // verus!
