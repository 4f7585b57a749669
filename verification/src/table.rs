use vstd::prelude::*;
use crate::action::ActionId;
use crate::button::Button;
use crate::button::ButtonTuple;

verus! {

/// The map described by a sequence of key/value pairs: every key that occurs
/// in the sequence is mapped to the value of its last occurrence.
pub open spec fn map_of<K, V>(s: Seq<(K, V)>) -> Map<K, V>
    decreases s.len(),
{
    if s.len() == 0 {
        Map::empty()
    } else {
        map_of(s.drop_last()).insert(s.last().0, s.last().1)
    }
}

/// True when no key occurs twice in the sequence.
pub open spec fn keys_unique<K, V>(s: Seq<(K, V)>) -> bool {
    forall|i: int, j: int| 0 <= i < j < s.len() ==> (#[trigger] s[i]).0 != (#[trigger] s[j]).0
}

/// With unique keys, the pair at any index is reflected in the map: its key
/// is mapped to its value.
pub proof fn lemma_map_of_index<K, V>(s: Seq<(K, V)>, k: int)
    requires
        keys_unique(s),
        0 <= k < s.len(),
    ensures
        map_of(s).contains_key(s[k].0),
        map_of(s)[s[k].0] == s[k].1,
    decreases s.len(),
{
    if k < s.len() - 1 {
        lemma_map_of_index(s.drop_last(), k);
    }
}

/// A key that occurs at no index of the sequence is not in the map.
pub proof fn lemma_map_of_absent<K, V>(s: Seq<(K, V)>, key: K)
    requires
        forall|i: int| 0 <= i < s.len() ==> (#[trigger] s[i]).0 != key,
    ensures
        !map_of(s).contains_key(key),
    decreases s.len(),
{
    if s.len() > 0 {
        lemma_map_of_absent(s.drop_last(), key);
    }
}

/// Every key of the map occurs at some index of the sequence.
pub proof fn lemma_map_of_dom<K, V>(s: Seq<(K, V)>, key: K)
    requires
        map_of(s).contains_key(key),
    ensures
        exists|i: int| 0 <= i < s.len() && (#[trigger] s[i]).0 == key,
    decreases s.len(),
{
    if s.len() > 0 && s.last().0 != key {
        lemma_map_of_dom(s.drop_last(), key);
        let i = choose|i: int| 0 <= i < s.drop_last().len() && (#[trigger] s.drop_last()[i]).0
            == key;
        assert(s[i].0 == key);
    }
}

/// Replacing the pair at an index of `key` by `(key, value)` turns the map of
/// the sequence into the map with `key` now mapped to `value`.
pub proof fn lemma_map_of_update<K, V>(s: Seq<(K, V)>, k: int, key: K, value: V)
    requires
        keys_unique(s),
        0 <= k < s.len(),
        s[k].0 == key,
    ensures
        map_of(s.update(k, (key, value))) =~= map_of(s).insert(key, value),
        keys_unique(s.update(k, (key, value))),
    decreases s.len(),
{
    let t = s.update(k, (key, value));
    assert(t.last() == if k == s.len() - 1 {
        (key, value)
    } else {
        s.last()
    });
    if k == s.len() - 1 {
        assert(t.drop_last() =~= s.drop_last());
    } else {
        assert(t.drop_last() =~= s.drop_last().update(k, (key, value)));
        lemma_map_of_update(s.drop_last(), k, key, value);
        assert(s.last().0 != key);
    }
}

/// Appending a pair with a fresh key extends the map and keeps keys unique.
pub proof fn lemma_map_of_push<K, V>(s: Seq<(K, V)>, key: K, value: V)
    requires
        keys_unique(s),
        forall|i: int| 0 <= i < s.len() ==> (#[trigger] s[i]).0 != key,
    ensures
        map_of(s.push((key, value))) == map_of(s).insert(key, value),
        keys_unique(s.push((key, value))),
{
    assert(s.push((key, value)).drop_last() =~= s);
}

/// The buttons bound to `action` by a sequence of button/action pairs, in
/// sequence order.
pub open spec fn buttons_for(s: Seq<(Button, ActionId)>, action: ActionId) -> Seq<Button>
    decreases s.len(),
{
    if s.len() == 0 {
        Seq::empty()
    } else {
        let rest = buttons_for(s.drop_last(), action);
        if s.last().1 == action {
            rest.push(s.last().0)
        } else {
            rest
        }
    }
}

/// A button is among the buttons bound to `action` exactly when the pair
/// occurs in the sequence.
pub proof fn lemma_buttons_for_membership(s: Seq<(Button, ActionId)>, action: ActionId, b: Button)
    ensures
        buttons_for(s, action).contains(b) <==> exists|i: int|
            0 <= i < s.len() && #[trigger] s[i] == (b, action),
    decreases s.len(),
{
    if s.len() > 0 {
        lemma_buttons_for_membership(s.drop_last(), action, b);
        let rest = buttons_for(s.drop_last(), action);
        if s.last() == (b, action) {
            assert(buttons_for(s, action).last() == b);
            assert(buttons_for(s, action).contains(b));
            assert(s[s.len() - 1] == (b, action));
        } else {
            if buttons_for(s, action).contains(b) {
                if s.last().1 == action {
                    assert(rest.push(s.last().0)[rest.len() as int] == s.last().0);
                    assert(rest.contains(b) || s.last().0 == b);
                }
                assert(exists|i: int| 0 <= i < s.drop_last().len() && #[trigger] s.drop_last()[i]
                    == (b, action));
                let i = choose|i: int|
                    0 <= i < s.drop_last().len() && #[trigger] s.drop_last()[i] == (b, action);
                assert(s[i] == (b, action));
            }
            if exists|i: int| 0 <= i < s.len() && #[trigger] s[i] == (b, action) {
                let i = choose|i: int| 0 <= i < s.len() && #[trigger] s[i] == (b, action);
                assert(i < s.len() - 1);
                assert(s.drop_last()[i] == (b, action));
                assert(rest.contains(b));
                if s.last().1 == action {
                    assert(rest.push(s.last().0).contains(b)) by {
                        let j = choose|j: int| 0 <= j < rest.len() && rest[j] == b;
                        assert(rest.push(s.last().0)[j] == b);
                    }
                }
            }
        }
    }
}

/// A forward table from buttons to actions: each button is bound to at most
/// one action. The pairs keep their insertion order, which makes every
/// traversal of the table deterministic.
#[derive(Debug)]
pub(crate) struct ButtonMap {
    pub(crate) entries: Vec<(Button, ActionId)>,
}

impl ButtonMap {
    /// The bindings as a map.
    pub(crate) open spec fn map_view(&self) -> Map<Button, ActionId> {
        map_of(self.entries@)
    }

    /// The bindings as a sequence of pairs, in insertion order.
    pub(crate) open spec fn seq(&self) -> Seq<(Button, ActionId)> {
        self.entries@
    }

    /// No button occurs twice.
    pub(crate) open spec fn wf(&self) -> bool {
        keys_unique(self.entries@)
    }

    /// Creates an empty table.
    pub(crate) fn new() -> (r: ButtonMap)
        ensures
            r.wf(),
            r.seq() == Seq::<(Button, ActionId)>::empty(),
            r.map_view() == Map::<Button, ActionId>::empty(),
    {
        ButtonMap { entries: Vec::new() }
    }

    /// The action bound to the given button, if any.
    #[verifier::loop_isolation(false)]
    pub(crate) fn get(&self, button: Button) -> (r: Option<ActionId>)
        requires
            self.wf(),
        ensures
            r == if self.map_view().contains_key(button) {
                Some(self.map_view()[button])
            } else {
                None::<ActionId>
            },
    {
        let n = self.entries.len();
        let mut i: usize = 0;
        while i < n
            invariant
                n == self.seq().len(),
                i <= n,
                self.wf(),
                forall|j: int| 0 <= j < i ==> (#[trigger] self.seq()[j]).0 != button,
            decreases n - i,
        {
            let (b, a) = self.entries[i];
            if b == button {
                proof {
                    lemma_map_of_index(self.seq(), i as int);
                }
                return Some(a);
            }
            i = i + 1;
        }
        proof {
            lemma_map_of_absent(self.seq(), button);
        }
        None
    }

    /// Binds the button to the action, replacing any existing binding of the
    /// same button.
    #[verifier::loop_isolation(false)]
    pub(crate) fn set(&mut self, button: Button, action: ActionId)
        requires
            old(self).wf(),
        ensures
            final(self).wf(),
            final(self).map_view() == old(self).map_view().insert(button, action),
    {
        let n = self.entries.len();
        let mut i: usize = 0;
        while i < n
            invariant
                *self == *old(self),
                n == self.seq().len(),
                i <= n,
                self.wf(),
                forall|j: int| 0 <= j < i ==> (#[trigger] self.seq()[j]).0 != button,
            decreases n - i,
        {
            let (b, _) = self.entries[i];
            if b == button {
                proof {
                    lemma_map_of_update(self.seq(), i as int, button, action);
                }
                self.entries.set(i, (button, action));
                return ;
            }
            i = i + 1;
        }
        proof {
            lemma_map_of_push(self.seq(), button, action);
        }
        self.entries.push((button, action));
    }

    /// An independent copy holding exactly the pairs of this table, in the
    /// same order.
    #[verifier::loop_isolation(false)]
    pub(crate) fn duplicate(&self) -> (r: ButtonMap)
        ensures
            r.seq() == self.seq(),
    {
        let n = self.entries.len();
        let mut copied: Vec<(Button, ActionId)> = Vec::new();
        let mut i: usize = 0;
        while i < n
            invariant
                n == self.seq().len(),
                i <= n,
                copied@ == self.seq().take(i as int),
            decreases n - i,
        {
            copied.push(self.entries[i]);
            proof {
                assert(self.seq().take(i + 1) =~= self.seq().take(i as int).push(
                    self.seq()[i as int],
                ));
            }
            i = i + 1;
        }
        proof {
            assert(self.seq().take(n as int) =~= self.seq());
        }
        ButtonMap { entries: copied }
    }

    /// True when every binding of this table is also a binding of `other`.
    #[verifier::loop_isolation(false)]
    pub(crate) fn contained_in(&self, other: &ButtonMap) -> (r: bool)
        requires
            self.wf(),
            other.wf(),
        ensures
            r == forall|b: Button| #[trigger]
                self.map_view().contains_key(b) ==> other.map_view().contains_key(b) && other.map_view()[b]
                    == self.map_view()[b],
    {
        let n = self.entries.len();
        let mut i: usize = 0;
        while i < n
            invariant
                n == self.seq().len(),
                i <= n,
                self.wf(),
                other.wf(),
                forall|j: int|
                    0 <= j < i ==> {
                        let b = (#[trigger] self.seq()[j]).0;
                        other.map_view().contains_key(b) && other.map_view()[b] == self.seq()[j].1
                    },
            decreases n - i,
        {
            let (b, a) = self.entries[i];
            let found = other.get(b);
            match found {
                Some(oa) => {
                    if !(oa == a) {
                        proof {
                            lemma_map_of_index(self.seq(), i as int);
                            assert(self.map_view().contains_key(b) && !(other.map_view().contains_key(b) && other.map_view()[b] == self.map_view()[b]));
                        }
                        return false;
                    }
                },
                None => {
                    proof {
                        lemma_map_of_index(self.seq(), i as int);
                        assert(self.map_view().contains_key(b) && !(other.map_view().contains_key(b) && other.map_view()[b] == self.map_view()[b]));
                    }
                    return false;
                },
            }
            i = i + 1;
        }
        proof {
            assert forall|b: Button| #[trigger] self.map_view().contains_key(b) implies other.map_view().contains_key(
                b,
            ) && other.map_view()[b] == self.map_view()[b] by {
                lemma_map_of_dom(self.seq(), b);
                let j = choose|j: int| 0 <= j < self.seq().len() && (#[trigger] self.seq()[j]).0
                    == b;
                lemma_map_of_index(self.seq(), j);
            }
        }
        true
    }
}

/// A reverse table from actions to button tuples: each action is bound to at
/// most one tuple. The pairs keep their insertion order.
#[derive(Debug)]
pub(crate) struct ActionMap {
    pub(crate) entries: Vec<(ActionId, ButtonTuple)>,
}

impl ActionMap {
    /// The bindings as a map.
    pub(crate) open spec fn map_view(&self) -> Map<ActionId, ButtonTuple> {
        map_of(self.entries@)
    }

    /// The bindings as a sequence of pairs, in insertion order.
    pub(crate) open spec fn seq(&self) -> Seq<(ActionId, ButtonTuple)> {
        self.entries@
    }

    /// No action occurs twice.
    pub(crate) open spec fn wf(&self) -> bool {
        keys_unique(self.entries@)
    }

    /// Creates an empty table.
    pub(crate) fn new() -> (r: ActionMap)
        ensures
            r.wf(),
            r.seq() == Seq::<(ActionId, ButtonTuple)>::empty(),
            r.map_view() == Map::<ActionId, ButtonTuple>::empty(),
    {
        ActionMap { entries: Vec::new() }
    }

    /// The number of actions in the table.
    pub(crate) fn len(&self) -> (r: usize)
        ensures
            r == self.seq().len(),
    {
        self.entries.len()
    }

    /// The pair at the given position.
    pub(crate) fn pair_at(&self, i: usize) -> (r: (ActionId, ButtonTuple))
        requires
            i < self.seq().len(),
        ensures
            r == self.seq()[i as int],
    {
        self.entries[i]
    }

    /// The tuple bound to the given action, if any.
    #[verifier::loop_isolation(false)]
    pub(crate) fn get(&self, action: ActionId) -> (r: Option<ButtonTuple>)
        requires
            self.wf(),
        ensures
            r == if self.map_view().contains_key(action) {
                Some(self.map_view()[action])
            } else {
                None::<ButtonTuple>
            },
    {
        let n = self.entries.len();
        let mut i: usize = 0;
        while i < n
            invariant
                n == self.seq().len(),
                i <= n,
                self.wf(),
                forall|j: int| 0 <= j < i ==> (#[trigger] self.seq()[j]).0 != action,
            decreases n - i,
        {
            let (a, t) = self.entries[i];
            if a == action {
                proof {
                    lemma_map_of_index(self.seq(), i as int);
                }
                return Some(t);
            }
            i = i + 1;
        }
        proof {
            lemma_map_of_absent(self.seq(), action);
        }
        None
    }

    /// Binds the action to the tuple, replacing any existing binding of the
    /// same action, and returns the tuple it replaced, if any.
    #[verifier::loop_isolation(false)]
    pub(crate) fn set(&mut self, action: ActionId, tuple: ButtonTuple) -> (prior: Option<
        ButtonTuple,
    >)
        requires
            old(self).wf(),
        ensures
            final(self).wf(),
            final(self).map_view() == old(self).map_view().insert(action, tuple),
            prior == if old(self).map_view().contains_key(action) {
                Some(old(self).map_view()[action])
            } else {
                None::<ButtonTuple>
            },
    {
        let n = self.entries.len();
        let mut i: usize = 0;
        while i < n
            invariant
                *self == *old(self),
                n == self.seq().len(),
                i <= n,
                self.wf(),
                forall|j: int| 0 <= j < i ==> (#[trigger] self.seq()[j]).0 != action,
            decreases n - i,
        {
            let (a, t) = self.entries[i];
            if a == action {
                proof {
                    lemma_map_of_index(self.seq(), i as int);
                    lemma_map_of_update(self.seq(), i as int, action, tuple);
                }
                self.entries.set(i, (action, tuple));
                return Some(t);
            }
            i = i + 1;
        }
        proof {
            lemma_map_of_absent(self.seq(), action);
            lemma_map_of_push(self.seq(), action, tuple);
        }
        self.entries.push((action, tuple));
        None
    }

    /// An independent copy holding exactly the pairs of this table, in the
    /// same order.
    #[verifier::loop_isolation(false)]
    pub(crate) fn duplicate(&self) -> (r: ActionMap)
        ensures
            r.seq() == self.seq(),
    {
        let n = self.entries.len();
        let mut copied: Vec<(ActionId, ButtonTuple)> = Vec::new();
        let mut i: usize = 0;
        while i < n
            invariant
                n == self.seq().len(),
                i <= n,
                copied@ == self.seq().take(i as int),
            decreases n - i,
        {
            copied.push(self.entries[i]);
            proof {
                assert(self.seq().take(i + 1) =~= self.seq().take(i as int).push(
                    self.seq()[i as int],
                ));
            }
            i = i + 1;
        }
        proof {
            assert(self.seq().take(n as int) =~= self.seq());
        }
        ActionMap { entries: copied }
    }
}

} // verus!
