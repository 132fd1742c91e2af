//! Many callers and one durable store.
//!
//! Every request that needs the signing key runs the steps of
//! [`load_or_generate_private_key`](crate::jwt::signer::load_or_generate_private_key)
//! on its own, and requests overlap. This module describes a deployment as
//! the content of durable storage together with the callers under way, and
//! proves that the callers end up with one key, whatever the order of their
//! steps, as long as durable storage keeps a text only where it holds none
//! and does so in one indivisible step.

use vstd::prelude::*;
use rsa::RsaPrivateKey;
use crate::jwt::signer::{
    after_generation,
    is_generated,
    key_step,
    modulus_bits,
    pkcs1_pem_key,
    pkcs1_pem_text,
    KeyActionView,
    KeyEventView,
    KeyState,
    WriteOutcomeView,
    KEY_BITS,
};

verus! {

/// One caller under way: where it stands, and the action with which its
/// call ended, once it has.
pub struct Caller {
    pub state: KeyState,
    pub outcome: Option<KeyActionView>,
}

/// A deployment: the text that durable storage holds under the key's name,
/// if any, and the callers.
pub struct Deployment {
    pub store: Option<Seq<char>>,
    pub callers: Seq<Caller>,
}

/// Whether `text` and `key` belong together: the text is the encoding of the
/// key, or the key is the decoding of the text.
pub open spec fn holds_key(text: Seq<char>, key: RsaPrivateKey) -> bool {
    pkcs1_pem_text(key) == Ok::<Seq<char>, Seq<char>>(text) || pkcs1_pem_key(text) == Ok::<
        RsaPrivateKey,
        Seq<char>,
    >(key)
}

/// Whether durable storage that holds `store` may answer a caller in `state`
/// with `event` and hold `store_after` then.
///
/// A read reports what storage holds, or fails, and changes nothing. A
/// request to keep a text takes effect only where storage holds none, and
/// reports the text that it holds otherwise. A request that fails may or may
/// not have taken effect.
pub open spec fn storage_answers(
    store: Option<Seq<char>>,
    state: KeyState,
    event: KeyEventView,
    store_after: Option<Seq<char>>,
) -> bool {
    match state {
        KeyState::Start => event == KeyEventView::Begin && store_after == store,
        KeyState::Reading => {
            &&& store_after == store
            &&& event matches KeyEventView::Read(read)
            &&& (read is Err || read == Ok::<Option<Seq<char>>, Seq<char>>(store))
        },
        KeyState::Writing { key } => match event {
            KeyEventView::Written(Ok(WriteOutcomeView::Stored)) => {
                &&& store is None
                &&& pkcs1_pem_text(key) matches Ok(pem)
                &&& store_after == Some(pem)
            },
            KeyEventView::Written(Ok(WriteOutcomeView::Kept(text))) => {
                &&& store == Some(text)
                &&& store_after == store
            },
            KeyEventView::Written(Err(_)) => {
                ||| store_after == store
                ||| {
                    &&& store is None
                    &&& pkcs1_pem_text(key) matches Ok(pem)
                    &&& store_after == Some(pem)
                }
            },
            _ => false,
        },
        KeyState::Done => false,
    }
}

/// The action as the end of a call, if it is one.
pub open spec fn recorded(action: KeyActionView) -> Option<KeyActionView> {
    match action {
        KeyActionView::Return(_) => Some(action),
        KeyActionView::Fail(_) => Some(action),
        _ => None,
    }
}

/// Whether the deployment gets from `before` to `after` by one step of
/// caller `i`, which learns of `event`, goes on in `next` and asks for
/// `action`.
pub open spec fn caller_steps(
    before: Deployment,
    after: Deployment,
    i: int,
    event: KeyEventView,
    next: KeyState,
    action: KeyActionView,
) -> bool {
    &&& 0 <= i < before.callers.len()
    &&& storage_answers(before.store, before.callers[i].state, event, after.store)
    &&& key_step(before.callers[i].state, event, next, action)
    &&& after.callers == before.callers.update(i, Caller { state: next, outcome: recorded(action) })
}

/// Whether the deployment gets from `before` to `after` by one step of one
/// caller.
pub open spec fn deployment_step(before: Deployment, after: Deployment) -> bool {
    exists|i: int, event: KeyEventView, next: KeyState, action: KeyActionView| #[trigger]
        caller_steps(before, after, i, event, next, action)
}

/// Whether no caller has taken a step yet. Durable storage may hold a key
/// from an earlier time.
pub open spec fn is_fresh(deployment: Deployment) -> bool {
    forall|i: int|
        0 <= i < deployment.callers.len() ==> #[trigger] deployment.callers[i] == (Caller {
            state: KeyState::Start,
            outcome: None,
        })
}

/// Whether `run` is a history of a deployment: it starts fresh, and each
/// entry follows from the one before by one step of one caller. The callers
/// may take their steps in any order.
pub open spec fn is_run(run: Seq<Deployment>) -> bool {
    &&& run.len() > 0
    &&& is_fresh(run[0])
    &&& forall|j: int| 0 <= j < run.len() - 1 ==> #[trigger] deployment_step(run[j], run[j + 1])
}

/// What holds of a deployment at every time: a caller under way has no
/// outcome yet, a caller that waits for storage to keep its key holds a key
/// of full size with an encoding, and a caller that returned a key returned
/// the one that belongs to the text in durable storage.
pub open spec fn converged(deployment: Deployment) -> bool {
    forall|i: int|
        0 <= i < deployment.callers.len() ==> {
            let caller = #[trigger] deployment.callers[i];
            &&& caller.state != KeyState::Done ==> caller.outcome is None
            &&& caller.state matches KeyState::Writing { key } ==> pkcs1_pem_text(key) is Ok
                && modulus_bits(key) == KEY_BITS
            &&& caller.outcome matches Some(KeyActionView::Return(key)) ==> {
                &&& deployment.store matches Some(text)
                &&& holds_key(text, key)
            }
        }
}

/// Whether `text` is the encoding of a key of full size.
pub open spec fn encodes_full_key(text: Seq<char>) -> bool {
    exists|key: RsaPrivateKey| #[trigger]
        pkcs1_pem_text(key) == Ok::<Seq<char>, Seq<char>>(text) && modulus_bits(key) == KEY_BITS
}

proof fn step_keeps_convergence(before: Deployment, after: Deployment)
    requires
        converged(before),
        deployment_step(before, after),
    ensures
        converged(after),
        after.callers.len() == before.callers.len(),
        before.store is Some ==> after.store == before.store,
        before.store is None && after.store is Some ==> encodes_full_key(after.store->Some_0),
{
    let (i, event, next, action) = choose|
        i: int,
        event: KeyEventView,
        next: KeyState,
        action: KeyActionView,
    | #[trigger] caller_steps(before, after, i, event, next, action);
    let mover = before.callers[i];
    assert forall|j: int| 0 <= j < after.callers.len() implies {
        let caller = #[trigger] after.callers[j];
        &&& caller.state != KeyState::Done ==> caller.outcome is None
        &&& caller.state matches KeyState::Writing { key } ==> pkcs1_pem_text(key) is Ok
            && modulus_bits(key) == KEY_BITS
        &&& caller.outcome matches Some(KeyActionView::Return(key)) ==> {
            &&& after.store matches Some(text)
            &&& holds_key(text, key)
        }
    } by {
        if j != i {
            assert(after.callers[j] == before.callers[j]);
        } else {
            if mover.state == KeyState::Reading && event == KeyEventView::Read(
                Ok::<Option<Seq<char>>, Seq<char>>(None),
            ) {
                let generated = choose|generated: Result<RsaPrivateKey, Seq<char>>|
                    is_generated(generated) && #[trigger] after_generation(generated) == (
                        next,
                        action,
                    );
                assert(after_generation(generated) == (next, action));
            }
        }
    }
    if before.store is None && after.store is Some {
        assert(mover.state is Writing);
        let key = mover.state->key;
        assert(pkcs1_pem_text(key) == Ok::<Seq<char>, Seq<char>>(after.store->Some_0)
            && modulus_bits(key) == KEY_BITS);
    }
}

/// At every time of a run the callers that returned a key returned the one
/// that belongs to the text in durable storage.
pub proof fn run_converges(run: Seq<Deployment>, j: int)
    requires
        is_run(run),
        0 <= j < run.len(),
    ensures
        converged(run[j]),
        run[j].callers.len() == run[0].callers.len(),
    decreases j,
{
    if j > 0 {
        run_converges(run, j - 1);
        assert(deployment_step(run[j - 1], run[j - 1 + 1]));
        step_keeps_convergence(run[j - 1], run[j]);
    }
}

/// Durable storage is written at most once: from the time at which it holds
/// a text, it holds that text.
pub proof fn one_key_is_kept(run: Seq<Deployment>, j: int, k: int)
    requires
        is_run(run),
        0 <= j <= k < run.len(),
        run[j].store is Some,
    ensures
        run[k].store == run[j].store,
    decreases k - j,
{
    if j < k {
        one_key_is_kept(run, j, k - 1);
        run_converges(run, k - 1);
        assert(deployment_step(run[k - 1], run[k - 1 + 1]));
        step_keeps_convergence(run[k - 1], run[k]);
    }
}

/// A text that comes to stand in durable storage in the course of a run is
/// the encoding of a generated key of full size.
pub proof fn kept_key_has_full_size(run: Seq<Deployment>, j: int)
    requires
        is_run(run),
        0 <= j < run.len() - 1,
        run[j].store is None,
        run[j + 1].store is Some,
    ensures
        encodes_full_key(run[j + 1].store->Some_0),
{
    run_converges(run, j);
    assert(deployment_step(run[j], run[j + 1]));
    step_keeps_convergence(run[j], run[j + 1]);
}

/// Any two callers that returned a key, in whatever order their steps fell,
/// returned the key of one and the same text, the one that durable storage
/// holds. Two of them that both decoded the text returned the same key.
pub proof fn callers_agree(
    run: Seq<Deployment>,
    j: int,
    a: int,
    b: int,
    key_a: RsaPrivateKey,
    key_b: RsaPrivateKey,
)
    requires
        is_run(run),
        0 <= j < run.len(),
        0 <= a < run[j].callers.len(),
        0 <= b < run[j].callers.len(),
        run[j].callers[a].outcome == Some(KeyActionView::Return(key_a)),
        run[j].callers[b].outcome == Some(KeyActionView::Return(key_b)),
    ensures
        run[j].store matches Some(text) && holds_key(text, key_a) && holds_key(text, key_b) && (
        pkcs1_pem_key(text) == Ok::<RsaPrivateKey, Seq<char>>(key_a) && pkcs1_pem_key(text) == Ok::<
            RsaPrivateKey,
            Seq<char>,
        >(key_b) ==> key_a == key_b),
{
    run_converges(run, j);
}

/// Whether a caller that found `text` in durable storage at its start is
/// where such a caller can be: it has not asked storage to keep anything,
/// and if it returned a key, then the decoding of `text`.
pub open spec fn reads_kept_key(caller: Caller, text: Seq<char>) -> bool {
    &&& !(caller.state is Writing)
    &&& caller.outcome matches Some(KeyActionView::Return(key)) ==> pkcs1_pem_key(text) == Ok::<
        RsaPrivateKey,
        Seq<char>,
    >(key)
}

/// A caller that starts once durable storage holds a text never generates a
/// key: it asks storage to keep nothing, and the key that it returns is the
/// decoding of that text. Calls that follow one another therefore return
/// the decoding of the same text, call after call.
pub proof fn later_caller_reads_kept_key(run: Seq<Deployment>, j: int, k: int, i: int, text: Seq<char>)
    requires
        is_run(run),
        0 <= j <= k < run.len(),
        0 <= i < run[j].callers.len(),
        run[j].callers[i].state == KeyState::Start,
        run[j].store == Some(text),
    ensures
        0 <= i < run[k].callers.len(),
        run[k].store == Some(text),
        reads_kept_key(run[k].callers[i], text),
    decreases k - j,
{
    run_converges(run, j);
    if j < k {
        later_caller_reads_kept_key(run, j, k - 1, i, text);
        run_converges(run, k - 1);
        assert(deployment_step(run[k - 1], run[k - 1 + 1]));
        let before = run[k - 1];
        let after = run[k];
        step_keeps_convergence(before, after);
        let (mover, event, next, action) = choose|
            mover: int,
            event: KeyEventView,
            next: KeyState,
            action: KeyActionView,
        | #[trigger] caller_steps(before, after, mover, event, next, action);
        if mover != i {
            assert(after.callers[i] == before.callers[i]);
        }
    }
}

} // verus!
