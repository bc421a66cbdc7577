use vstd::prelude::*;

use crate::mac::mac48;
use crate::message::TIMESTAMP_MODULUS;
use crate::message::lemma_signed_frame_fields;
use crate::message::spec_is_signed;
use crate::message::spec_signable;
use crate::message::spec_signature_timestamp;
use crate::message::spec_signature_value;
use crate::message::spec_wf;
use crate::signing::ConfigModel;
use crate::signing::NEW_STREAM_WINDOW_TICKS;
use crate::signing::StateModel;
use crate::signing::spec_msg_stream_key;
use crate::signing::spec_raised_floor;
use crate::signing::spec_sign_frame;
use crate::signing::spec_sign_state;
use crate::signing::spec_sign_timestamp;
use crate::signing::spec_stream_key;
use crate::signing::spec_verify_result;
use crate::signing::spec_verify_state;

verus! {

/// Law: a verification call never lowers the timestamp floor.
pub proof fn lemma_verify_floor_monotonic(cfg: ConfigModel, st: StateModel, m: Seq<u8>, now: u64)
    ensures
        spec_verify_state(cfg, st, m, now).timestamp >= st.timestamp,
{
}

/// Law: a signing call never lowers the timestamp floor.
pub proof fn lemma_sign_floor_monotonic(st: StateModel, m: Seq<u8>, now: u64)
    requires
        st.timestamp < u64::MAX,
        now < u64::MAX,
    ensures
        spec_sign_state(st, m, now).timestamp >= st.timestamp,
{
}

/// Law: on a stream that was seen before, a repeated or older timestamp is
/// rejected whatever the MAC holds, and the stream table keeps its entries.
pub proof fn lemma_replay_rejected(cfg: ConfigModel, st: StateModel, m: Seq<u8>, now: u64)
    requires
        spec_is_signed(m),
        st.stream_timestamps.contains_key(spec_msg_stream_key(m)),
        spec_signature_timestamp(m) <= st.stream_timestamps[spec_msg_stream_key(m)],
    ensures
        !spec_verify_result(cfg, st, m, now),
        spec_verify_state(cfg, st, m, now).stream_timestamps == st.stream_timestamps,
{
}

/// Law: an accepted signed frame's timestamp strictly exceeds the stream's
/// previous one, and becomes the stream's recorded timestamp.
pub proof fn lemma_accepted_timestamp_advances(
    cfg: ConfigModel,
    st: StateModel,
    m: Seq<u8>,
    now: u64,
)
    requires
        spec_is_signed(m),
        spec_verify_result(cfg, st, m, now),
    ensures
        st.stream_timestamps.contains_key(spec_msg_stream_key(m)) ==> spec_signature_timestamp(m)
            > st.stream_timestamps[spec_msg_stream_key(m)],
        spec_verify_state(cfg, st, m, now).stream_timestamps.contains_key(spec_msg_stream_key(m)),
        spec_verify_state(cfg, st, m, now).stream_timestamps[spec_msg_stream_key(m)]
            == spec_signature_timestamp(m),
{
}

/// Law: for a signed frame of a previously unseen stream whose MAC is valid,
/// acceptance holds exactly when the frame's timestamp is at most the window
/// below the raised floor; the boundary itself is accepted.
pub proof fn lemma_new_stream_window(cfg: ConfigModel, st: StateModel, m: Seq<u8>, now: u64)
    requires
        spec_is_signed(m),
        !st.stream_timestamps.contains_key(spec_msg_stream_key(m)),
        spec_signature_value(m) == mac48(cfg.secret_key, spec_signable(m)),
    ensures
        spec_verify_result(cfg, st, m, now) <==> spec_signature_timestamp(m)
            + NEW_STREAM_WINDOW_TICKS >= spec_raised_floor(st.timestamp, now),
{
}

/// Law: an unsigned frame is accepted exactly when policy allows unsigned
/// traffic, independent of all other state, and the state is untouched.
pub proof fn lemma_unsigned_policy(cfg: ConfigModel, st: StateModel, m: Seq<u8>, now: u64)
    requires
        !spec_is_signed(m),
    ensures
        spec_verify_result(cfg, st, m, now) == cfg.allow_unsigned,
        spec_verify_state(cfg, st, m, now) == st,
{
}

/// Law: signing a frame under one context and verifying it against a fresh
/// context that shares the secret key succeeds exactly once: the first
/// verification accepts, provided the verifier's clock has not run more than
/// the window past the stamped timestamp, and a second verification of the
/// same untouched frame is rejected whatever the clock then reads.
pub proof fn lemma_sign_verify_round_trip(
    cfg_a: ConfigModel,
    cfg_b: ConfigModel,
    st_a: StateModel,
    m: Seq<u8>,
    now_a: u64,
    now_b1: u64,
    now_b2: u64,
)
    requires
        spec_wf(m),
        spec_is_signed(m),
        cfg_b.secret_key == cfg_a.secret_key,
        st_a.timestamp < u64::MAX,
        now_a < u64::MAX,
        spec_signature_timestamp(spec_sign_frame(cfg_a, st_a, m, now_a))
            + NEW_STREAM_WINDOW_TICKS >= now_b1,
    ensures
        ({
            let signed = spec_sign_frame(cfg_a, st_a, m, now_a);
            let fresh = StateModel { timestamp: 0, stream_timestamps: Map::<u64, u64>::empty() };
            &&& spec_verify_result(cfg_b, fresh, signed, now_b1)
            &&& !spec_verify_result(
                cfg_b,
                spec_verify_state(cfg_b, fresh, signed, now_b1),
                signed,
                now_b2,
            )
        }),
{
    lemma_signed_frame_fields(m, cfg_a.link_id, spec_sign_timestamp(st_a, now_a), cfg_a.secret_key);
}

/// Law: verification touches no stream but the frame's own; exhausting one
/// stream's window never affects another stream's recorded state.
pub proof fn lemma_other_streams_untouched(
    cfg: ConfigModel,
    st: StateModel,
    m: Seq<u8>,
    now: u64,
    other: u64,
)
    requires
        other != spec_msg_stream_key(m),
    ensures
        spec_verify_state(cfg, st, m, now).stream_timestamps.contains_key(other)
            == st.stream_timestamps.contains_key(other),
        st.stream_timestamps.contains_key(other) ==> spec_verify_state(
            cfg,
            st,
            m,
            now,
        ).stream_timestamps[other] == st.stream_timestamps[other],
{
}

/// Law: the verdict on a frame depends only on the floor and on the frame's
/// own stream entry, never on what other streams recorded.
pub proof fn lemma_verify_depends_only_on_own_stream(
    cfg: ConfigModel,
    st1: StateModel,
    st2: StateModel,
    m: Seq<u8>,
    now: u64,
)
    requires
        st1.timestamp == st2.timestamp,
        st1.stream_timestamps.contains_key(spec_msg_stream_key(m))
            == st2.stream_timestamps.contains_key(spec_msg_stream_key(m)),
        st1.stream_timestamps.contains_key(spec_msg_stream_key(m))
            ==> st1.stream_timestamps[spec_msg_stream_key(m)]
            == st2.stream_timestamps[spec_msg_stream_key(m)],
    ensures
        spec_verify_result(cfg, st1, m, now) == spec_verify_result(cfg, st2, m, now),
{
}

/// Law: distinct stream triples map to distinct table keys, so their
/// acceptance states are held apart.
pub proof fn lemma_stream_key_injective(l1: u8, s1: u8, c1: u8, l2: u8, s2: u8, c2: u8)
    requires
        spec_stream_key(l1, s1, c1) == spec_stream_key(l2, s2, c2),
    ensures
        l1 == l2,
        s1 == s2,
        c1 == c2,
{
    assert(l1 == l2 && s1 == s2 && c1 == c2) by (nonlinear_arith)
        requires
            l1 * 0x10000 + s1 * 0x100 + c1 == l2 * 0x10000 + s2 * 0x100 + c2,
            l1 <= 0xff && s1 <= 0xff && c1 <= 0xff,
            l2 <= 0xff && s2 <= 0xff && c2 <= 0xff,
    ;
}

/// Law: two frames signed back to back within the same clock tick receive
/// strictly increasing timestamps, the second one greater by exactly one,
/// and the two stamped 48-bit fields differ.
pub proof fn lemma_sign_timestamps_increase(st: StateModel, m1: Seq<u8>, now: u64)
    requires
        spec_is_signed(m1),
        st.timestamp < u64::MAX,
        now < u64::MAX,
    ensures
        ({
            let t1 = spec_sign_timestamp(st, now);
            let t2 = spec_sign_timestamp(spec_sign_state(st, m1, now), now);
            &&& t2 == t1 + 1
            &&& t1 % TIMESTAMP_MODULUS != t2 % TIMESTAMP_MODULUS
        }),
{
    let t1 = spec_sign_timestamp(st, now);
    let t2 = spec_sign_timestamp(spec_sign_state(st, m1, now), now);
    assert(t2 == t1 + 1);
    assert(t1 % TIMESTAMP_MODULUS != t2 % TIMESTAMP_MODULUS) by (nonlinear_arith)
        requires
            t2 == t1 + 1,
            TIMESTAMP_MODULUS > 1,
    ;
}

/// One call into the signing subsystem: a verification or a signing, with
/// the frame it saw and the clock reading it observed.
pub enum SigningCall {
    Verify { m: Seq<u8>, now: u64 },
    Sign { m: Seq<u8>, now: u64 },
}

/// The signing state after one call.
pub open spec fn spec_step(cfg: ConfigModel, st: StateModel, call: SigningCall) -> StateModel {
    match call {
        SigningCall::Verify { m, now } => spec_verify_state(cfg, st, m, now),
        SigningCall::Sign { m, now } => spec_sign_state(st, m, now),
    }
}

/// The signing state after a sequence of calls.
pub open spec fn spec_run(cfg: ConfigModel, st: StateModel, calls: Seq<SigningCall>) -> StateModel
    decreases calls.len(),
{
    if calls.len() == 0 {
        st
    } else {
        spec_run(cfg, spec_step(cfg, st, calls[0]), calls.drop_first())
    }
}

/// Whether no signing call of the run meets the floor already at the machine
/// limit, where the increment past the stamped timestamp could not happen.
pub open spec fn spec_run_in_bounds(cfg: ConfigModel, st: StateModel, calls: Seq<SigningCall>) -> bool
    decreases calls.len(),
{
    calls.len() == 0 || {
        let ok = match calls[0] {
            SigningCall::Verify { .. } => true,
            SigningCall::Sign { m, now } => st.timestamp < u64::MAX && now < u64::MAX,
        };
        ok && spec_run_in_bounds(cfg, spec_step(cfg, st, calls[0]), calls.drop_first())
    }
}

/// Law: over any sequence of verification and signing calls that keeps the
/// floor within the machine limit, the timestamp floor never decreases.
pub proof fn lemma_floor_monotonic_over_run(cfg: ConfigModel, st: StateModel, calls: Seq<SigningCall>)
    requires
        spec_run_in_bounds(cfg, st, calls),
    ensures
        spec_run(cfg, st, calls).timestamp >= st.timestamp,
    decreases calls.len(),
{
    if calls.len() > 0 {
        let st1 = spec_step(cfg, st, calls[0]);
        match calls[0] {
            SigningCall::Verify { m, now } => lemma_verify_floor_monotonic(cfg, st, m, now),
            SigningCall::Sign { m, now } => lemma_sign_floor_monotonic(st, m, now),
        }
        lemma_floor_monotonic_over_run(cfg, st1, calls.drop_first());
    }
}

/// Law: a stream's recorded last-accepted timestamp never decreases over one
/// verification call.
pub proof fn lemma_stream_timestamp_monotonic(
    cfg: ConfigModel,
    st: StateModel,
    m: Seq<u8>,
    now: u64,
    key: u64,
)
    requires
        st.stream_timestamps.contains_key(key),
    ensures
        spec_verify_state(cfg, st, m, now).stream_timestamps.contains_key(key),
        spec_verify_state(cfg, st, m, now).stream_timestamps[key] >= st.stream_timestamps[key],
{
}

/// Law: over any sequence of calls, a stream's recorded last-accepted
/// timestamp never decreases.
pub proof fn lemma_stream_timestamp_monotonic_over_run(
    cfg: ConfigModel,
    st: StateModel,
    calls: Seq<SigningCall>,
    key: u64,
)
    requires
        st.stream_timestamps.contains_key(key),
    ensures
        spec_run(cfg, st, calls).stream_timestamps.contains_key(key),
        spec_run(cfg, st, calls).stream_timestamps[key] >= st.stream_timestamps[key],
    decreases calls.len(),
{
    if calls.len() > 0 {
        let st1 = spec_step(cfg, st, calls[0]);
        match calls[0] {
            SigningCall::Verify { m, now } => lemma_stream_timestamp_monotonic(cfg, st, m, now, key),
            SigningCall::Sign { .. } => {},
        }
        lemma_stream_timestamp_monotonic_over_run(cfg, st1, calls.drop_first(), key);
    }
}

} // verus!

