use vstd::prelude::*;
use crate::action::ActionId;
use crate::button::Button;
use crate::mouse::MouseConfig;
use crate::mouse::Motion;
use crate::mouse::Size;
use crate::mouse::Viewport;
use crate::convert::compressed_from;
use crate::convert::group_pairs;
use crate::rebind::InputRebind;
use crate::table::ButtonMap;
use crate::table::keys_unique;
use crate::table::map_of;

verus! {

/// A raw input event, as decoded by the host: a button press or release, a
/// mouse motion, or one of an open set of further events that the engine
/// ignores.
#[derive(Clone, Copy, Debug, Eq, Hash, PartialEq, Structural)]
pub enum Input {
    /// A button was pressed.
    Press(Button),
    /// A button was released.
    Release(Button),
    /// The mouse moved.
    Move(Motion),
    /// The window was resized; ignored by the engine.
    Resize(u32, u32),
    /// The window gained or lost focus; ignored by the engine.
    Focus(bool),
}

/// A translated event: the logical reading of a raw input event under the
/// current bindings.
#[derive(Clone, Copy, Debug, Eq, Hash, PartialEq, Structural)]
pub enum Translated {
    /// A press of a button which was bound to an action.
    Press(ActionId),
    /// A release of a button which was bound to an action.
    Release(ActionId),
    /// A mouse motion, transformed by the mouse configuration. The logical
    /// origin of a translated cursor event is the top left corner of the
    /// viewport.
    Move(Motion),
}

/// The runtime-fast representation of the bindings: a forward table from
/// buttons to actions, consulted on every input event, together with the
/// mouse configuration.
#[derive(Debug)]
pub struct InputTranslator {
    pub(crate) keymap: ButtonMap,
    pub(crate) mouse: MouseConfig,
}

impl InputTranslator {
    /// The forward table as a sequence of button/action pairs, in insertion
    /// order.
    pub closed spec fn binding_seq(&self) -> Seq<(Button, ActionId)> {
        self.keymap.seq()
    }

    /// The forward table as a map from buttons to actions.
    pub open spec fn bindings(&self) -> Map<Button, ActionId> {
        map_of(self.binding_seq())
    }

    /// The mouse configuration.
    pub closed spec fn mouse_config(&self) -> MouseConfig {
        self.mouse
    }

    /// No button occurs twice in the forward table. This invariant holds of
    /// every translator: constructors establish it and every operation
    /// preserves it.
    #[verifier::type_invariant]
    pub open spec fn wf(self) -> bool {
        keys_unique(self.binding_seq())
    }

    /// The translation of a raw input event: a bound press or release becomes
    /// the action-level event, an unbound one translates to nothing, a mouse
    /// motion is always transformed under the mouse configuration, and every
    /// other event translates to nothing.
    pub open spec fn translate_spec(&self, input: Input) -> Option<Translated> {
        match input {
            Input::Press(b) => if self.bindings().contains_key(b) {
                Some(Translated::Press(self.bindings()[b]))
            } else {
                None
            },
            Input::Release(b) => if self.bindings().contains_key(b) {
                Some(Translated::Release(self.bindings()[b]))
            } else {
                None
            },
            Input::Move(m) => Some(Translated::Move(self.mouse_config().apply_spec(m))),
            _ => None,
        }
    }

    /// Creates a translator from its parts.
    pub(crate) fn from_parts(keymap: ButtonMap, mouse: MouseConfig) -> (t: InputTranslator)
        requires
            keymap.wf(),
        ensures
            t.binding_seq() == keymap.seq(),
            t.mouse_config() == mouse,
    {
        InputTranslator { keymap, mouse }
    }

    /// Creates an empty translator with the default mouse configuration for a
    /// viewport of the given size.
    pub fn new(size: Size) -> (t: InputTranslator)
        ensures
            t.bindings() == Map::<Button, ActionId>::empty(),
            t.binding_seq() == Seq::<(Button, ActionId)>::empty(),
            t.mouse_config() == MouseConfig::initial(size),
    {
        InputTranslator { keymap: ButtonMap::new(), mouse: MouseConfig::new(size) }
    }

    /// Translate a raw input event into an action-level event. Returns `None`
    /// exactly when the event is a press or release of an unbound button, or
    /// an event kind the engine ignores.
    pub fn translate(&self, input: &Input) -> (r: Option<Translated>)
        ensures
            r == self.translate_spec(*input),
    {
        proof {
            use_type_invariant(&*self);
        }
        match input {
            Input::Press(button) => match self.keymap.get(*button) {
                Some(action) => Some(Translated::Press(action)),
                None => None,
            },
            Input::Release(button) => match self.keymap.get(*button) {
                Some(action) => Some(Translated::Release(action)),
                None => None,
            },
            Input::Move(motion) => Some(Translated::Move(self.mouse.apply(*motion))),
            _ => None,
        }
    }

    /// Re-set the viewport size used for calculating mouse events; the
    /// bindings and the rest of the mouse configuration are untouched.
    pub fn set_size(&mut self, size: Size)
        ensures
            final(self).binding_seq() == old(self).binding_seq(),
            final(self).mouse_config() == (MouseConfig {
                viewport_size: size,
                ..old(self).mouse_config()
            }),
    {
        proof {
            use_type_invariant(&*self);
        }
        self.mouse.viewport_size = size;
    }

    /// Re-set the viewport size from the drawing area of a viewport; the
    /// bindings and the rest of the mouse configuration are untouched.
    pub fn set_size_from_viewport(&mut self, vp: Viewport)
        ensures
            final(self).binding_seq() == old(self).binding_seq(),
            final(self).mouse_config() == (MouseConfig {
                viewport_size: Size { width: vp.draw_size[0], height: vp.draw_size[1] },
                ..old(self).mouse_config()
            }),
    {
        let size = Size { width: vp.draw_size[0], height: vp.draw_size[1] };
        self.set_size(size);
    }
}

impl InputTranslator {
    /// Convert the translator into the edit-time representation, consuming
    /// it. The conversion is total: every action to which at least one button
    /// is bound appears in the result, bound to the first three of its
    /// buttons in forward-table order; any further buttons are dropped.
    pub fn into_rebind(self) -> (r: InputRebind)
        ensures
            compressed_from(r, self),
    {
        proof {
            use_type_invariant(&self);
        }
        let grouped = group_pairs(&self.keymap.entries);
        InputRebind::from_parts(grouped, self.mouse)
    }
}

impl Clone for InputTranslator {
    /// The clone holds the same bindings, in the same order, and the same
    /// mouse configuration.
    fn clone(&self) -> (r: InputTranslator)
        ensures
            r.binding_seq() == self.binding_seq(),
            r.mouse_config() == self.mouse_config(),
    {
        proof {
            use_type_invariant(&*self);
        }
        InputTranslator { keymap: self.keymap.duplicate(), mouse: self.mouse }
    }
}

impl PartialEq for InputTranslator {
    /// Two translators are equal when they hold the same bindings — as maps,
    /// regardless of insertion order — and the same mouse configuration.
    fn eq(&self, other: &InputTranslator) -> (r: bool) {
        proof {
            use_type_invariant(&*self);
            use_type_invariant(&*other);
        }
        let fwd = self.keymap.contained_in(&other.keymap);
        let bwd = other.keymap.contained_in(&self.keymap);
        let mouse_eq = self.mouse == other.mouse;
        proof {
            if fwd && bwd {
                assert forall|b: Button|
                    #![trigger self.bindings().contains_key(b)]
                    #![trigger other.bindings().contains_key(b)]
                    self.bindings().contains_key(b) == other.bindings().contains_key(b) && (
                    self.bindings().contains_key(b) ==> self.bindings()[b]
                        == other.bindings()[b]) by {
                    assert(self.keymap.map_view() == self.bindings());
                    assert(other.keymap.map_view() == other.bindings());
                }
                assert(self.bindings() =~= other.bindings());
            }
        }
        fwd && bwd && mouse_eq
    }
}

impl vstd::std_specs::cmp::PartialEqSpecImpl for InputTranslator {
    open spec fn obeys_eq_spec() -> bool {
        true
    }

    open spec fn eq_spec(&self, other: &InputTranslator) -> bool {
        self.bindings() == other.bindings() && self.mouse_config() == other.mouse_config()
    }
}

/// A press of a button that was never bound translates to nothing.
pub proof fn lemma_unbound_press_untranslated(t: InputTranslator, b: Button)
    requires
        !t.bindings().contains_key(b),
    ensures
        t.translate_spec(Input::Press(b)) is None,
{
}

/// A press translates to a press of action `a` exactly when the button is
/// currently bound to `a`; the forward table binds it to no other action at
/// the same time.
pub proof fn lemma_press_translated_iff_bound(t: InputTranslator, b: Button, a: ActionId)
    ensures
        t.translate_spec(Input::Press(b)) == Some(Translated::Press(a)) <==> (
        t.bindings().contains_key(b) && t.bindings()[b] == a),
{
}

} // verus!
