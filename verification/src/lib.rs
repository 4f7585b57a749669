//! A library for binding input buttons to logical actions, and for adjusting
//! mouse behaviour. Buttons are mapped to actions in a forward lookup table
//! that is consulted on every input event, while an action-indexed reverse
//! table supports editing the bindings at runtime. Total, deterministic
//! conversions keep the two representations interchangeable, and the laws
//! they obey — unbound buttons translate to nothing, a press translates to
//! exactly the bound action, and a round trip through the reverse table
//! preserves the bindings — are stated and proved alongside the code.

mod action;
mod builder;
mod button;
mod convert;
mod mouse;
mod rebind;
mod table;
mod translator;

pub use action::Action;
pub use action::ActionId;
pub use builder::Builder;
pub use button::Button;
pub use button::ButtonTuple;
pub use button::ButtonTupleIter;
pub use button::lemma_insert_count;
pub use button::lemma_insert_on_full_is_noop;
pub use convert::compressed_from;
pub use convert::expand_map;
pub use convert::expanded_from;
pub use convert::lemma_round_trip;
pub use convert::tuple_inserts;
pub use convert::tuple_of;
pub use mouse::Motion;
pub use mouse::MouseConfig;
pub use mouse::Size;
pub use mouse::Viewport;
pub use mouse::clamp_i64;
pub use mouse::lemma_sensitivity_not_applied;
pub use mouse::mirror_spec;
pub use mouse::negate_spec;
pub use rebind::InputRebind;
pub use table::buttons_for;
pub use table::keys_unique;
pub use table::map_of;
pub use translator::Input;
pub use translator::InputTranslator;
pub use translator::Translated;
pub use translator::lemma_press_translated_iff_bound;
pub use translator::lemma_unbound_press_untranslated;
