//! Raw terminal input: looks the event up in the key-binding table and
//! forwards every bound action to the event loop's own mailbox.

use vstd::prelude::*;
use vstd::string::StringExecFns;

use crate::actor_system::context::Request;
use crate::actor_system::messages::Envelope;
use crate::models::actions::AppMessage;
use crate::models::input_event::InputEvent;
use crate::models::state::RSState;

verus! {

/// Sends the actions bound to `ev`, in binding order, to the event
/// loop.  An unbound event is dropped.
pub fn handle(ev: InputEvent, state: &mut RSState)
    requires
        old(state).wf(),
        old(state).ctx is Some,
    ensures
        final(state).wf(),
        final(state).entries == old(state).entries,
        final(state).ui_mode == old(state).ui_mode,
        final(state).bindings == old(state).bindings,
        final(state).ctx is Some,
        old(state).bindings.spec_position(ev) == -1 ==> final(state).ctx.unwrap()@ == old(state).ctx.unwrap()@,
        old(state).bindings.spec_position(ev) >= 0 ==> {
            let bound = old(state).bindings.spec_bound(ev);
            let pre = old(state).ctx.unwrap()@;
            let post = final(state).ctx.unwrap()@;
            &&& post.len() == pre.len() + bound.len()
            &&& post.subrange(0, pre.len() as int) == pre
            &&& forall|k: int|
                0 <= k < bound.len() ==> match #[trigger] post[pre.len() + k] {
                    Request::SendTo(name, env) => name@ == "event_loop"@ && env
                        == Envelope::Payload(AppMessage::UserAction(bound[k])),
                    _ => false,
                }
        },
{
    let actions: Vec<crate::models::actions::UserAction> = {
        match state.bindings.get_vec(ev) {
            Option::Some(v) => {
                let mut copy: Vec<crate::models::actions::UserAction> = Vec::new();
                let m = v.len();
                let mut k: usize = 0;
                while k < m
                    invariant
                        k <= m,
                        m == v@.len(),
                        copy@ =~= v@.subrange(0, k as int),
                    decreases m - k,
                {
                    copy.push(v[k]);
                    k = k + 1;
                }
                proof {
                    assert(copy@ =~= v@);
                }
                copy
            },
            Option::None => {
                return ;
            },
        }
    };
    let ghost bound = old(state).bindings.spec_bound(ev);
    let ghost pre = state.ctx.unwrap()@;
    let n = actions.len();
    let mut i: usize = 0;
    while i < n
        invariant
            i <= n,
            n == actions@.len(),
            state.wf(),
            state.entries == old(state).entries,
            state.ui_mode == old(state).ui_mode,
            state.bindings == old(state).bindings,
            state.ctx is Some,
            actions@ == bound,
            state.ctx.unwrap()@.len() == pre.len() + i,
            state.ctx.unwrap()@.subrange(0, pre.len() as int) =~= pre,
            forall|k: int|
                0 <= k < i ==> match #[trigger] state.ctx.unwrap()@[pre.len() + k] {
                    Request::SendTo(name, env) => name@ == "event_loop"@ && env
                        == Envelope::Payload(AppMessage::UserAction(bound[k])),
                    _ => false,
                },
        decreases n - i,
    {
        let action = actions[i];
        let ghost before = state.ctx.unwrap()@;
        match &mut state.ctx {
            Option::Some(c) => {
                c.send_to(String::from_str("event_loop"), AppMessage::UserAction(action));
            },
            Option::None => {},
        }
        proof {
            assert(state.ctx.unwrap()@.subrange(0, pre.len() as int) =~= pre);
        }
        i = i + 1;
    }
}

} // verus!
