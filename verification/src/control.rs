//! Which nodes of the reverb a parameter change is sent to, and in what form.

use vstd::prelude::*;
use crate::graph::{setting_of, Tag};
use crate::params::{default_of, index_of, param_for_index, ParamId, ParamValues, PARAM_COUNT, SCALE};
use crate::reverb::{reverb_nodes, reverb_tag};

verus! {

/// How a node's setting follows a parameter value `v`.
#[derive(Clone, Copy, Debug, PartialEq, Eq, Structural)]
pub enum ValueForm {
    /// The node is set to `v`.
    Direct,
    /// The node is set to `1 - v`.
    Complement,
}

/// A `SetToNumber(0, ..)` message to send to the node that `target` names.
#[derive(Clone, Copy, Debug, PartialEq, Eq, Structural)]
pub struct ParamMessage {
    pub target: Tag,
    pub form: ValueForm,
}

/// The fixed-point setting that `form` makes of the setting `v`.
pub open spec fn apply_form(form: ValueForm, v: int) -> int {
    match form {
        ValueForm::Direct => v,
        ValueForm::Complement => SCALE - v,
    }
}

/// The messages that a change of `id` sends, in order.
pub open spec fn messages_of(id: ParamId) -> Seq<ParamMessage> {
    match id {
        ParamId::Bandwidth => seq![
            ParamMessage { target: Tag::InputLpf, form: ValueForm::Direct },
        ],
        ParamId::Damping => seq![
            ParamMessage { target: Tag::TankLpf1, form: ValueForm::Direct },
            ParamMessage { target: Tag::TankLpf2, form: ValueForm::Direct },
        ],
        ParamId::Decay => seq![
            ParamMessage { target: Tag::FbRate1, form: ValueForm::Direct },
            ParamMessage { target: Tag::FbRate2, form: ValueForm::Direct },
        ],
        ParamId::Mix => seq![
            ParamMessage { target: Tag::Mix1, form: ValueForm::Direct },
            ParamMessage { target: Tag::Mix2, form: ValueForm::Direct },
            ParamMessage { target: Tag::MixDiff1, form: ValueForm::Complement },
            ParamMessage { target: Tag::MixDiff2, form: ValueForm::Complement },
        ],
    }
}

/// The messages that a change of `id` sends: bandwidth sets the input
/// low-pass, damping both tank low-passes, decay both feedback gains, and mix
/// the two wet gains directly and the two dry gains to one minus the mix.
pub fn messages_for(id: ParamId) -> (r: Vec<ParamMessage>)
    ensures
        r@ == messages_of(id),
{
    match id {
        ParamId::Bandwidth => vec![
            ParamMessage { target: Tag::InputLpf, form: ValueForm::Direct },
        ],
        ParamId::Damping => vec![
            ParamMessage { target: Tag::TankLpf1, form: ValueForm::Direct },
            ParamMessage { target: Tag::TankLpf2, form: ValueForm::Direct },
        ],
        ParamId::Decay => vec![
            ParamMessage { target: Tag::FbRate1, form: ValueForm::Direct },
            ParamMessage { target: Tag::FbRate2, form: ValueForm::Direct },
        ],
        ParamId::Mix => vec![
            ParamMessage { target: Tag::Mix1, form: ValueForm::Direct },
            ParamMessage { target: Tag::Mix2, form: ValueForm::Direct },
            ParamMessage { target: Tag::MixDiff1, form: ValueForm::Complement },
            ParamMessage { target: Tag::MixDiff2, form: ValueForm::Complement },
        ],
    }
}

/// The messages of `id`, each paired with the parameter that sends it.
pub open spec fn messages_with_id(id: ParamId) -> Seq<(ParamId, ParamMessage)> {
    messages_of(id).map_values(|m: ParamMessage| (id, m))
}

/// The messages that the parameters with host index below `k` send, in
/// index order, counting only those whose flag in `changed` is set.
pub open spec fn change_messages_upto(changed: ParamValues<bool>, k: int) -> Seq<(ParamId, ParamMessage)>
    decreases k,
{
    if k <= 0 {
        Seq::empty()
    } else {
        let earlier = change_messages_upto(changed, k - 1);
        match param_for_index((k - 1) as i32) {
            Some(id) => if changed.value(id) {
                earlier + messages_with_id(id)
            } else {
                earlier
            },
            None => earlier,
        }
    }
}

/// The messages that a set of changes sends: for each parameter whose flag
/// is set, in host index order (bandwidth, damping, decay, mix), its
/// messages paired with the parameter.
pub open spec fn change_messages(changed: ParamValues<bool>) -> Seq<(ParamId, ParamMessage)> {
    change_messages_upto(changed, PARAM_COUNT as int)
}

/// The messages to send once it is known which parameters changed since the
/// engine was last set.
pub fn messages_for_changes(changed: &ParamValues<bool>) -> (r: Vec<(ParamId, ParamMessage)>)
    ensures
        r@ == change_messages(*changed),
{
    let mut r: Vec<(ParamId, ParamMessage)> = Vec::new();
    let mut index: i32 = 0;
    while index < PARAM_COUNT
        invariant
            0 <= index <= PARAM_COUNT,
            r@ == change_messages_upto(*changed, index as int),
        decreases PARAM_COUNT - index,
    {
        if let Some(id) = ParamId::from_index(index) {
            if *changed.get(id) {
                let ms = messages_for(id);
                let ghost before = r@;
                let mut j: usize = 0;
                while j < ms.len()
                    invariant
                        0 <= j <= ms@.len(),
                        ms@ == messages_of(id),
                        r@ == before + messages_with_id(id).take(j as int),
                    decreases ms@.len() - j,
                {
                    r.push((id, ms[j]));
                    assert(messages_with_id(id).take(j + 1) =~= messages_with_id(id).take(
                        j as int,
                    ).push((id, ms@[j as int])));
                    j = j + 1;
                }
                assert(messages_with_id(id).take(ms@.len() as int) =~= messages_with_id(id));
            }
        }
        index = index + 1;
    }
    r
}

impl<V: Copy> ParamValues<V> {
    /// Brings the values the engine was last set to up to date: each
    /// parameter flagged in `changed` takes its value from `current`, the
    /// others keep theirs, and the result lists the messages that carry the
    /// changes to the engine.
    pub fn sync_changed(&mut self, current: &ParamValues<V>, changed: &ParamValues<bool>) -> (r: Vec<(
        ParamId,
        ParamMessage,
    )>)
        ensures
            forall|id: ParamId|
                #[trigger] final(self).value(id) == if changed.value(id) {
                    current.value(id)
                } else {
                    old(self).value(id)
                },
            r@ == change_messages(*changed),
    {
        let r = messages_for_changes(changed);
        let mut index: i32 = 0;
        while index < PARAM_COUNT
            invariant
                0 <= index <= PARAM_COUNT,
                forall|id: ParamId|
                    #[trigger] self.value(id) == if changed.value(id) && index_of(id) < index {
                        current.value(id)
                    } else {
                        old(self).value(id)
                    },
            decreases PARAM_COUNT - index,
        {
            if let Some(id) = ParamId::from_index(index) {
                if *changed.get(id) {
                    self.set(id, *current.get(id));
                }
            }
            index = index + 1;
        }
        r
    }
}

/// Syncing with no change flagged sends nothing and leaves every cached
/// value as it was.
pub proof fn law_sync_without_changes_is_quiet<V>(
    before: ParamValues<V>,
    after: ParamValues<V>,
    current: ParamValues<V>,
    changed: ParamValues<bool>,
    sent: Seq<(ParamId, ParamMessage)>,
)
    requires
        forall|id: ParamId| !#[trigger] changed.value(id),
        forall|id: ParamId|
            #[trigger] after.value(id) == if changed.value(id) {
                current.value(id)
            } else {
                before.value(id)
            },
        sent == change_messages(changed),
    ensures
        sent == Seq::<(ParamId, ParamMessage)>::empty(),
        forall|id: ParamId| #[trigger] after.value(id) == before.value(id),
{
    law_changes_send_changed_messages(changed, ParamId::Mix);
}

/// When the flags mark exactly the parameters whose current value differs
/// from the cached one, a sync leaves the cache equal to the current values,
/// so a second sync against the same values, with its flags computed the same
/// way, has no flag set and sends nothing.
pub proof fn law_sync_then_nothing_left<V>(
    before: ParamValues<V>,
    after: ParamValues<V>,
    current: ParamValues<V>,
    changed: ParamValues<bool>,
    again: ParamValues<bool>,
)
    requires
        forall|id: ParamId| #[trigger] changed.value(id) == (before.value(id) != current.value(id)),
        forall|id: ParamId|
            #[trigger] after.value(id) == if changed.value(id) {
                current.value(id)
            } else {
                before.value(id)
            },
        forall|id: ParamId| #[trigger] again.value(id) == (after.value(id) != current.value(id)),
    ensures
        forall|id: ParamId| #[trigger] after.value(id) == current.value(id),
        change_messages(again) == Seq::<(ParamId, ParamMessage)>::empty(),
{
    assert forall|id: ParamId| #[trigger] after.value(id) == current.value(id) by {
        assert(changed.value(id) == (before.value(id) != current.value(id)));
    }
    assert forall|id: ParamId| !#[trigger] again.value(id) by {
        assert(after.value(id) == current.value(id));
    }
    law_changes_send_changed_messages(again, ParamId::Mix);
}

/// A set of changes sends exactly the messages of the changed parameters:
/// nothing when no flag is set, and, when only `id` changed, the messages of
/// `id`.
pub proof fn law_changes_send_changed_messages(changed: ParamValues<bool>, id: ParamId)
    ensures
        (forall|p: ParamId| !#[trigger] changed.value(p)) ==> change_messages(changed)
            == Seq::<(ParamId, ParamMessage)>::empty(),
        (forall|p: ParamId| #[trigger] changed.value(p) <==> p == id) ==> change_messages(changed)
            =~= messages_with_id(id),
{
    reveal_with_fuel(change_messages_upto, 5);
    if forall|p: ParamId| #[trigger] changed.value(p) <==> p == id {
        assert(changed.value(id));
        assert(change_messages(changed) =~= messages_with_id(id)) by {
            let e = Seq::<(ParamId, ParamMessage)>::empty();
            assert(e + messages_with_id(id) =~= messages_with_id(id));
        }
    }
    if forall|p: ParamId| !#[trigger] changed.value(p) {
        assert(!changed.value(ParamId::Bandwidth));
        assert(!changed.value(ParamId::Damping));
        assert(!changed.value(ParamId::Decay));
        assert(!changed.value(ParamId::Mix));
    }
}

/// The parameter whose value each tagged node follows: the input low-pass
/// follows bandwidth, the tank low-passes damping, the feedback gains decay,
/// and the wet and dry gains mix.  The input node follows none.
pub open spec fn driver_of(t: Tag) -> Option<ParamId> {
    match t {
        Tag::Input => None,
        Tag::InputLpf => Some(ParamId::Bandwidth),
        Tag::TankLpf1 | Tag::TankLpf2 => Some(ParamId::Damping),
        Tag::FbRate1 | Tag::FbRate2 => Some(ParamId::Decay),
        Tag::Mix1 | Tag::Mix2 | Tag::MixDiff1 | Tag::MixDiff2 => Some(ParamId::Mix),
    }
}

/// Every message of a parameter goes to a node that follows that
/// parameter, and only the dry gains get one minus the value: every other
/// node gets the value itself.
pub proof fn law_messages_follow_their_parameter(id: ParamId, k: int)
    requires
        0 <= k < messages_of(id).len(),
    ensures
        driver_of(messages_of(id)[k].target) == Some(id),
        messages_of(id)[k].form == ValueForm::Complement <==> (messages_of(id)[k].target
            == Tag::MixDiff1 || messages_of(id)[k].target == Tag::MixDiff2),
{
}

/// Every node that follows a parameter gets a message of that parameter.
pub proof fn law_every_driven_tag_is_messaged(t: Tag)
    ensures
        driver_of(t) matches Some(id) ==> exists|k: int|
            0 <= k < messages_of(id).len() && (#[trigger] messages_of(id)[k]).target == t,
{
    match t {
        Tag::Input => {},
        Tag::InputLpf => assert(messages_of(ParamId::Bandwidth)[0].target == t),
        Tag::TankLpf1 => assert(messages_of(ParamId::Damping)[0].target == t),
        Tag::TankLpf2 => assert(messages_of(ParamId::Damping)[1].target == t),
        Tag::FbRate1 => assert(messages_of(ParamId::Decay)[0].target == t),
        Tag::FbRate2 => assert(messages_of(ParamId::Decay)[1].target == t),
        Tag::Mix1 => assert(messages_of(ParamId::Mix)[0].target == t),
        Tag::Mix2 => assert(messages_of(ParamId::Mix)[1].target == t),
        Tag::MixDiff1 => assert(messages_of(ParamId::Mix)[2].target == t),
        Tag::MixDiff2 => assert(messages_of(ParamId::Mix)[3].target == t),
    }
}

/// The messages of `id` paired with `id` when its flag is set, else none.
pub open spec fn flagged_part(changed: ParamValues<bool>, id: ParamId) -> Seq<(ParamId, ParamMessage)> {
    if changed.value(id) {
        messages_of(id).map_values(|m: ParamMessage| (id, m))
    } else {
        Seq::empty()
    }
}

/// For any set of flags, the messages sent are those of the flagged
/// parameters, in host index order, each paired with its own parameter:
/// every message carries the value of a flagged parameter to a node that
/// follows that parameter, complemented only for the dry gains.
pub proof fn law_change_messages_follow_flags(changed: ParamValues<bool>, k: int)
    ensures
        change_messages(changed) == flagged_part(changed, ParamId::Bandwidth) + flagged_part(
            changed,
            ParamId::Damping,
        ) + flagged_part(changed, ParamId::Decay) + flagged_part(changed, ParamId::Mix),
        0 <= k < change_messages(changed).len() ==> {
            let (id, m) = change_messages(changed)[k];
            &&& changed.value(id)
            &&& driver_of(m.target) == Some(id)
            &&& (m.form == ValueForm::Complement <==> (m.target == Tag::MixDiff1 || m.target
                == Tag::MixDiff2))
        },
{
    reveal_with_fuel(change_messages_upto, 5);
    let e = Seq::<(ParamId, ParamMessage)>::empty();
    let b = flagged_part(changed, ParamId::Bandwidth);
    let d = flagged_part(changed, ParamId::Damping);
    let y = flagged_part(changed, ParamId::Decay);
    let x = flagged_part(changed, ParamId::Mix);
    assert(e + b =~= b);
    assert(change_messages(changed) =~= b + d + y + x);
    assert forall|id: ParamId, j: int| 0 <= j < flagged_part(changed, id).len() implies {
        let (pid, m) = #[trigger] flagged_part(changed, id)[j];
        &&& changed.value(pid)
        &&& driver_of(m.target) == Some(pid)
        &&& (m.form == ValueForm::Complement <==> (m.target == Tag::MixDiff1 || m.target
            == Tag::MixDiff2))
    } by {
        law_messages_follow_their_parameter(id, j);
    }
    if 0 <= k < change_messages(changed).len() {
        let r = b + d + y + x;
        if k < b.len() {
            assert(r[k] == b[k]);
        } else if k < b.len() + d.len() {
            assert(r[k] == d[k - b.len()]);
        } else if k < b.len() + d.len() + y.len() {
            assert(r[k] == y[k - b.len() - d.len()]);
        } else {
            assert(r[k] == x[k - b.len() - d.len() - y.len()]);
        }
    }
}

/// Every message goes to a node of the reverb whose setting a message can
/// change, and before any change that setting is what the message would
/// write for the parameter's default: the graph starts in step with the
/// default parameters.
pub proof fn law_reverb_starts_at_defaults(id: ParamId, k: int)
    requires
        0 <= k < messages_of(id).len(),
    ensures
        reverb_tag(messages_of(id)[k].target) < reverb_nodes().len(),
        setting_of(reverb_nodes()[reverb_tag(messages_of(id)[k].target) as int].kind) == Some(
            apply_form(messages_of(id)[k].form, default_of(id) as int) as i64,
        ),
{
}

/// No two messages, of one parameter or of two, go to the same tag; the
/// input tag receives none.
pub proof fn law_each_tag_has_one_driver(id1: ParamId, k1: int, id2: ParamId, k2: int)
    requires
        0 <= k1 < messages_of(id1).len(),
        0 <= k2 < messages_of(id2).len(),
    ensures
        messages_of(id1)[k1].target == messages_of(id2)[k2].target ==> id1 == id2 && k1 == k2,
        messages_of(id1)[k1].target != Tag::Input,
{
}

} // verus!
