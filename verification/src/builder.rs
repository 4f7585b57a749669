use vstd::prelude::*;
use crate::action::ActionId;
use crate::button::Button;
use crate::convert::group_pairs;
use crate::convert::tuple_of;
use crate::mouse::MouseConfig;
use crate::mouse::Size;
use crate::rebind::InputRebind;
use crate::table::ButtonMap;
use crate::table::buttons_for;
use crate::table::map_of;
use crate::translator::InputTranslator;

verus! {

/// Convenience object for constructing a translator or a rebind from an
/// ordered list of action/button mappings and a mouse configuration.
#[derive(Clone, Debug)]
pub struct Builder {
    mappings: Vec<(Button, ActionId)>,
    mouse: MouseConfig,
}

impl Builder {
    /// The seed mappings as button/action pairs, in the order they were
    /// added.
    pub closed spec fn mappings(&self) -> Seq<(Button, ActionId)> {
        self.mappings@
    }

    /// The mouse configuration collected so far.
    pub closed spec fn mouse_config(&self) -> MouseConfig {
        self.mouse
    }

    /// Creates a new builder with the specified viewport size and no
    /// mappings.
    pub fn new(size: Size) -> (r: Builder)
        ensures
            r.mappings() == Seq::<(Button, ActionId)>::empty(),
            r.mouse_config() == MouseConfig::initial(size),
    {
        Builder { mappings: Vec::new(), mouse: MouseConfig::new(size) }
    }

    /// Set whether the x scroll is inverted on the builder.
    pub fn x_scroll_inverted(self, invert: bool) -> (r: Builder)
        ensures
            r.mappings() == self.mappings(),
            r.mouse_config() == (MouseConfig { x_scroll_inverted: invert, ..self.mouse_config() }),
    {
        let mut b = self;
        b.mouse.x_scroll_inverted = invert;
        b
    }

    /// True if the x scroll is inverted on the builder.
    pub fn get_x_scroll_inverted(&self) -> (r: bool)
        ensures
            r == self.mouse_config().x_scroll_inverted,
    {
        self.mouse.x_scroll_inverted
    }

    /// Set whether the y scroll is inverted on the builder.
    pub fn y_scroll_inverted(self, invert: bool) -> (r: Builder)
        ensures
            r.mappings() == self.mappings(),
            r.mouse_config() == (MouseConfig { y_scroll_inverted: invert, ..self.mouse_config() }),
    {
        let mut b = self;
        b.mouse.y_scroll_inverted = invert;
        b
    }

    /// True if the y scroll is inverted on the builder.
    pub fn get_y_scroll_inverted(&self) -> (r: bool)
        ensures
            r == self.mouse_config().y_scroll_inverted,
    {
        self.mouse.y_scroll_inverted
    }

    /// Set whether the x axis motion is inverted on the builder.
    pub fn x_motion_inverted(self, invert: bool) -> (r: Builder)
        ensures
            r.mappings() == self.mappings(),
            r.mouse_config() == (MouseConfig { x_motion_inverted: invert, ..self.mouse_config() }),
    {
        let mut b = self;
        b.mouse.x_motion_inverted = invert;
        b
    }

    /// True if the x axis motion is inverted on the builder.
    pub fn get_x_motion_inverted(&self) -> (r: bool)
        ensures
            r == self.mouse_config().x_motion_inverted,
    {
        self.mouse.x_motion_inverted
    }

    /// Set whether the y axis motion is inverted on the builder.
    pub fn y_motion_inverted(self, invert: bool) -> (r: Builder)
        ensures
            r.mappings() == self.mappings(),
            r.mouse_config() == (MouseConfig { y_motion_inverted: invert, ..self.mouse_config() }),
    {
        let mut b = self;
        b.mouse.y_motion_inverted = invert;
        b
    }

    /// True if the y axis motion is inverted on the builder.
    pub fn get_y_motion_inverted(&self) -> (r: bool)
        ensures
            r == self.mouse_config().y_motion_inverted,
    {
        self.mouse.y_motion_inverted
    }

    /// Set the mouse sensitivity, in raw caller-supplied units. The setting
    /// is reserved: it is carried through every conversion and applied by no
    /// transform.
    pub fn mouse_sensitivity(self, sensitivity: u64) -> (r: Builder)
        ensures
            r.mappings() == self.mappings(),
            r.mouse_config() == (MouseConfig { sensitivity, ..self.mouse_config() }),
    {
        let mut b = self;
        b.mouse.sensitivity = sensitivity;
        b
    }

    /// The mouse sensitivity, in raw caller-supplied units.
    pub fn get_mouse_sensitivity(&self) -> (r: u64)
        ensures
            r == self.mouse_config().sensitivity,
    {
        self.mouse.sensitivity
    }

    /// Sets the viewport size used for mouse position calculations.
    pub fn viewport_size(self, size: Size) -> (r: Builder)
        ensures
            r.mappings() == self.mappings(),
            r.mouse_config() == (MouseConfig { viewport_size: size, ..self.mouse_config() }),
    {
        let mut b = self;
        b.mouse.viewport_size = size;
        b
    }

    /// The currently set viewport size.
    pub fn get_viewport_size(&self) -> (r: Size)
        ensures
            r == self.mouse_config().viewport_size,
    {
        self.mouse.viewport_size
    }

    /// Add an association between the action and the button.
    pub fn with_mapping(self, action: ActionId, button: Button) -> (r: Builder)
        ensures
            r.mappings() == self.mappings().push((button, action)),
            r.mouse_config() == self.mouse_config(),
    {
        let mut b = self;
        b.mappings.push((button, action));
        b
    }

    /// Creates a translator from this builder: the mappings seed the forward
    /// table in order, so that of two mappings of the same button the later
    /// one wins.
    #[verifier::loop_isolation(false)]
    pub fn build_translator(self) -> (t: InputTranslator)
        ensures
            t.bindings() == map_of(self.mappings()),
            t.mouse_config() == self.mouse_config(),
    {
        let n = self.mappings.len();
        let mut fw = ButtonMap::new();
        let mut i: usize = 0;
        proof {
            assert(self.mappings().take(0) =~= Seq::<(Button, ActionId)>::empty());
        }
        while i < n
            invariant
                n == self.mappings().len(),
                i <= n,
                fw.wf(),
                fw.map_view() == map_of(self.mappings().take(i as int)),
            decreases n - i,
        {
            let (button, action) = self.mappings[i];
            fw.set(button, action);
            proof {
                assert(self.mappings().take(i + 1).drop_last() =~= self.mappings().take(i as int));
                assert(self.mappings().take(i + 1).last() == self.mappings()[i as int]);
            }
            i = i + 1;
        }
        proof {
            assert(self.mappings().take(n as int) =~= self.mappings());
        }
        InputTranslator::from_parts(fw, self.mouse)
    }

    /// Creates a rebind from this builder: the mappings are grouped by
    /// action, each action bound to the tuple of the first three buttons
    /// mapped to it, in order; any further buttons are dropped.
    pub fn build_rebind(self) -> (r: InputRebind)
        ensures
            r.mouse_config() == self.mouse_config(),
            forall|a: ActionId| #[trigger]
                r.actions().contains_key(a) <==> buttons_for(self.mappings(), a).len() > 0,
            forall|a: ActionId| #[trigger]
                r.actions().contains_key(a) ==> r.actions()[a] == tuple_of(
                    buttons_for(self.mappings(), a),
                ),
    {
        let grouped = group_pairs(&self.mappings);
        InputRebind::from_parts(grouped, self.mouse)
    }
}

/// The default builder holds no mappings and uses an 800 by 600 viewport.
impl Default for Builder {
    fn default() -> (r: Builder)
        ensures
            r.mappings() == Seq::<(Button, ActionId)>::empty(),
            r.mouse_config() == MouseConfig::initial(Size { width: 800, height: 600 }),
    {
        Builder::new(Size { width: 800, height: 600 })
    }
}

} // verus!
