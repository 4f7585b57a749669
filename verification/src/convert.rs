use vstd::prelude::*;
use crate::action::ActionId;
use crate::button::Button;
use crate::button::ButtonTuple;
use crate::rebind::InputRebind;
use crate::table::ActionMap;
use crate::table::buttons_for;
use crate::table::keys_unique;
use crate::table::lemma_buttons_for_membership;
use crate::table::lemma_map_of_dom;
use crate::table::lemma_map_of_index;
use crate::table::map_of;
use crate::translator::InputTranslator;

verus! {

/// The button tuple holding the first three buttons of a sequence, from left
/// to right; any further buttons are dropped.
pub open spec fn tuple_of(bs: Seq<Button>) -> ButtonTuple {
    ButtonTuple(
        if bs.len() > 0 {
            Some(bs[0])
        } else {
            None
        },
        if bs.len() > 1 {
            Some(bs[1])
        } else {
            None
        },
        if bs.len() > 2 {
            Some(bs[2])
        } else {
            None
        },
    )
}

/// The forward map extended by one reverse-table entry: each button in the
/// tuple becomes bound to the action, slots taken left to right, overriding
/// any earlier binding of the same button.
pub open spec fn tuple_inserts(m: Map<Button, ActionId>, action: ActionId, t: ButtonTuple) -> Map<
    Button,
    ActionId,
> {
    let m0 = match t.0 {
        Some(b) => m.insert(b, action),
        None => m,
    };
    let m1 = match t.1 {
        Some(b) => m0.insert(b, action),
        None => m0,
    };
    match t.2 {
        Some(b) => m1.insert(b, action),
        None => m1,
    }
}

/// The forward map described by a reverse table: every entry's buttons become
/// bound to its action, entries taken in sequence order, so that on a button
/// claimed by several actions the last entry processed wins.
pub open spec fn expand_map(s: Seq<(ActionId, ButtonTuple)>) -> Map<Button, ActionId>
    decreases s.len(),
{
    if s.len() == 0 {
        Map::empty()
    } else {
        tuple_inserts(expand_map(s.drop_last()), s.last().0, s.last().1)
    }
}

/// The rebind `r` is the compression of the translator `t`: they share the
/// mouse configuration, the rebind holds exactly the actions to which `t`
/// binds at least one button, and each action's tuple holds the first three
/// of its buttons, in forward-table order.
pub open spec fn compressed_from(r: InputRebind, t: InputTranslator) -> bool {
    &&& r.mouse_config() == t.mouse_config()
    &&& forall|a: ActionId| #[trigger]
        r.actions().contains_key(a) <==> buttons_for(t.binding_seq(), a).len() > 0
    &&& forall|a: ActionId| #[trigger]
        r.actions().contains_key(a) ==> r.actions()[a] == tuple_of(
            buttons_for(t.binding_seq(), a),
        )
}

/// The translator `t` is the expansion of the rebind `r`: they share the
/// mouse configuration and the forward table is the expansion of the reverse
/// table, entries taken in order with the last write winning.
pub open spec fn expanded_from(t: InputTranslator, r: InputRebind) -> bool {
    &&& t.mouse_config() == r.mouse_config()
    &&& t.bindings() == expand_map(r.tuple_seq())
}

/// Taking one more pair appends its button to the buttons of its action and
/// leaves the buttons of every other action unchanged.
proof fn lemma_buttons_for_take_step(s: Seq<(Button, ActionId)>, i: int, a: ActionId)
    requires
        0 <= i < s.len(),
    ensures
        buttons_for(s.take(i + 1), a) == if s[i].1 == a {
            buttons_for(s.take(i), a).push(s[i].0)
        } else {
            buttons_for(s.take(i), a)
        },
{
    assert(s.take(i + 1).drop_last() =~= s.take(i));
    assert(s.take(i + 1).last() == s[i]);
}

/// Appending a button to a button sequence inserts it into the tuple of the
/// sequence: it lands in the first free slot, or is dropped when the first
/// three slots are taken.
proof fn lemma_tuple_of_push(bs: Seq<Button>, b: Button)
    ensures
        tuple_of(bs.push(b)) == tuple_of(bs).inserted(b),
{
    assert(bs.push(b).len() == bs.len() + 1);
    if bs.len() == 0 {
        assert(bs.push(b)[0] == b);
    } else if bs.len() == 1 {
        assert(bs.push(b)[0] == bs[0]);
        assert(bs.push(b)[1] == b);
    } else if bs.len() == 2 {
        assert(bs.push(b)[0] == bs[0]);
        assert(bs.push(b)[1] == bs[1]);
        assert(bs.push(b)[2] == b);
    } else {
        assert(bs.push(b)[0] == bs[0]);
        assert(bs.push(b)[1] == bs[1]);
        assert(bs.push(b)[2] == bs[2]);
    }
}

/// Expanding a reverse table whose every entry holds the first buttons of
/// its action, complete up to three, recovers exactly the bindings of the
/// forward table, for the actions the reverse table covers.
proof fn lemma_expand_covers(fw: Seq<(Button, ActionId)>, es: Seq<(ActionId, ButtonTuple)>)
    requires
        keys_unique(fw),
        forall|j: int|
            0 <= j < es.len() ==> (#[trigger] es[j]).1 == tuple_of(buttons_for(fw, es[j].0))
                && buttons_for(fw, es[j].0).len() <= 3,
    ensures
        forall|b: Button| #[trigger]
            expand_map(es).contains_key(b) ==> map_of(fw).contains_key(b) && expand_map(es)[b]
                == map_of(fw)[b],
        forall|b: Button, j: int|
            0 <= j < es.len() && map_of(fw).contains_key(b) && map_of(fw)[b] == (#[trigger] es[j]).0
                ==> #[trigger] expand_map(es).contains_key(b),
    decreases es.len(),
{
    if es.len() > 0 {
        let prefix = es.drop_last();
        lemma_expand_covers(fw, prefix);
        let a = es.last().0;
        let tp = es.last().1;
        let bs = buttons_for(fw, a);
        assert(es[es.len() - 1] == es.last());
        assert(tp == tuple_of(bs) && bs.len() <= 3);
        let m0 = expand_map(prefix);
        let m1 = expand_map(es);
        assert(m1 == tuple_inserts(m0, a, tp));
        // Every button in a slot of `tp` is bound to `a` by the forward table.
        assert forall|k: int| 0 <= k < bs.len() implies map_of(fw).contains_key(bs[k])
            && map_of(fw)[bs[k]] == a by {
            lemma_buttons_for_membership(fw, a, bs[k]);
            assert(bs.contains(bs[k]));
            let idx = choose|idx: int| 0 <= idx < fw.len() && #[trigger] fw[idx] == (bs[k], a);
            lemma_map_of_index(fw, idx);
        }
        // First conclusion: each binding of the expansion agrees with the
        // forward table.
        assert forall|b: Button| #[trigger] m1.contains_key(b) implies map_of(fw).contains_key(b)
            && m1[b] == map_of(fw)[b] by {
            if tp.0 == Some(b) || tp.1 == Some(b) || tp.2 == Some(b) {
                assert(exists|k: int| 0 <= k < bs.len() && bs[k] == b);
            } else {
                assert(m0.contains_key(b) && m1[b] == m0[b]);
            }
        }
        // Second conclusion: every button of a covered action is bound by
        // the expansion.
        assert forall|b: Button, j: int|
            0 <= j < es.len() && map_of(fw).contains_key(b) && map_of(fw)[b] == (#[trigger] es[j]).0 implies #[trigger] m1.contains_key(
            b,
        ) by {
            if j < es.len() - 1 {
                assert(prefix[j] == es[j]);
                assert(m0.contains_key(b));
            } else {
                lemma_map_of_dom(fw, b);
                let idx = choose|idx: int| 0 <= idx < fw.len() && (#[trigger] fw[idx]).0 == b;
                lemma_map_of_index(fw, idx);
                assert(fw[idx] == (b, a));
                lemma_buttons_for_membership(fw, a, b);
                let k = choose|k: int| 0 <= k < bs.len() && bs[k] == b;
                assert(k < 3);
                assert(tp.0 == Some(b) || tp.1 == Some(b) || tp.2 == Some(b));
            }
        }
    }
}

/// Round trip: compressing a translator in which no action is bound to more
/// than three buttons, and expanding the result, yields a translator with
/// the same bindings and the same mouse configuration as the original.
pub proof fn lemma_round_trip(t: InputTranslator, r: InputRebind, t2: InputTranslator)
    requires
        t.wf(),
        r.wf(),
        compressed_from(r, t),
        expanded_from(t2, r),
        forall|a: ActionId| #[trigger] buttons_for(t.binding_seq(), a).len() <= 3,
    ensures
        t2.bindings() == t.bindings(),
        t2.mouse_config() == t.mouse_config(),
{
    let fw = t.binding_seq();
    let es = r.tuple_seq();
    assert forall|j: int| 0 <= j < es.len() implies (#[trigger] es[j]).1 == tuple_of(
        buttons_for(fw, es[j].0),
    ) && buttons_for(fw, es[j].0).len() <= 3 by {
        lemma_map_of_index(es, j);
        assert(r.actions().contains_key(es[j].0));
    }
    lemma_expand_covers(fw, es);
    assert forall|b: Button| #[trigger] map_of(fw).contains_key(b) implies expand_map(
        es,
    ).contains_key(b) && expand_map(es)[b] == map_of(fw)[b] by {
        let a = map_of(fw)[b];
        lemma_map_of_dom(fw, b);
        let idx = choose|idx: int| 0 <= idx < fw.len() && (#[trigger] fw[idx]).0 == b;
        lemma_map_of_index(fw, idx);
        assert(fw[idx] == (b, a));
        lemma_buttons_for_membership(fw, a, b);
        assert(buttons_for(fw, a).contains(b));
        assert(buttons_for(fw, a).len() > 0);
        assert(r.actions().contains_key(a));
        lemma_map_of_dom(es, a);
        let j = choose|j: int| 0 <= j < es.len() && (#[trigger] es[j]).0 == a;
        assert(expand_map(es).contains_key(b));
    }
    assert(t2.bindings() =~= t.bindings());
}

/// Groups a sequence of button/action pairs into a reverse table: each action
/// present is bound to the tuple of the first three buttons paired with it,
/// in sequence order.
#[verifier::loop_isolation(false)]
pub(crate) fn group_pairs(pairs: &Vec<(Button, ActionId)>) -> (r: ActionMap)
    ensures
        r.wf(),
        forall|a: ActionId| #[trigger]
            r.map_view().contains_key(a) <==> buttons_for(pairs@, a).len() > 0,
        forall|a: ActionId| #[trigger]
            r.map_view().contains_key(a) ==> r.map_view()[a] == tuple_of(buttons_for(pairs@, a)),
{
    let n = pairs.len();
    let mut r = ActionMap::new();
    let mut i: usize = 0;
    proof {
        assert(pairs@.take(0) =~= Seq::<(Button, ActionId)>::empty());
    }
    while i < n
        invariant
            n == pairs@.len(),
            i <= n,
            r.wf(),
            forall|a: ActionId| #[trigger]
                r.map_view().contains_key(a) <==> buttons_for(pairs@.take(i as int), a).len() > 0,
            forall|a: ActionId| #[trigger]
                r.map_view().contains_key(a) ==> r.map_view()[a] == tuple_of(
                    buttons_for(pairs@.take(i as int), a),
                ),
        decreases n - i,
    {
        let (b, a) = pairs[i];
        let cur = match r.get(a) {
            Some(t) => t,
            None => ButtonTuple::new(),
        };
        proof {
            assert(buttons_for(pairs@.take(0), a) =~= Seq::<Button>::empty());
            assert(cur == tuple_of(buttons_for(pairs@.take(i as int), a)));
        }
        let mut updated = cur;
        // A full tuple drops the button: the capacity limit is deliberate.
        updated.insert_inplace(b);
        proof {
            lemma_tuple_of_push(buttons_for(pairs@.take(i as int), a), b);
            assert forall|x: ActionId| true implies buttons_for(pairs@.take(i + 1), x)
                == if pairs@[i as int].1 == x {
                buttons_for(pairs@.take(i as int), x).push(pairs@[i as int].0)
            } else {
                buttons_for(pairs@.take(i as int), x)
            } by {
                lemma_buttons_for_take_step(pairs@, i as int, x);
            }
        }
        r.set(a, updated);
        i = i + 1;
    }
    proof {
        assert(pairs@.take(n as int) =~= pairs@);
    }
    r
}

} // verus!
