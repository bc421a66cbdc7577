use vstd::prelude::*;

use std::collections::HashMap;

use crate::clock::spec_ticks;
use crate::clock::ticks_from_unix_micros;
use crate::clock::unix_time_micros;
use crate::mac::mac48;
use crate::message::MAVLinkV2MessageRaw;
use crate::message::TIMESTAMP_MODULUS;
use crate::message::spec_component_id;
use crate::message::spec_is_signed;
use crate::message::spec_signable;
use crate::message::spec_signature_link_id;
use crate::message::spec_signature_timestamp;
use crate::message::spec_signature_value;
use crate::message::spec_signed_frame;
use crate::message::spec_system_id;

verus! {

broadcast use vstd::std_specs::hash::group_hash_axioms;

/// How far, in ticks, the timestamp of the first message of a previously
/// unseen stream may lie below the raised floor and still be accepted.
pub const NEW_STREAM_WINDOW_TICKS: u64 = 60_000_000;

/// Mathematical view of a [`SigningConfig`].
#[verifier::ext_equal]
pub struct ConfigModel {
    pub secret_key: Seq<u8>,
    pub link_id: u8,
    pub sign_outgoing: bool,
    pub allow_unsigned: bool,
}

/// Mathematical view of the mutable signing state: the monotonic timestamp
/// floor and the last accepted timestamp of each stream.
#[verifier::ext_equal]
pub struct StateModel {
    pub timestamp: u64,
    pub stream_timestamps: Map<u64, u64>,
}

/// Mathematical view of a [`SigningData`].
#[verifier::ext_equal]
pub struct DataModel {
    pub config: ConfigModel,
    pub state: StateModel,
}

/// Packs a stream's identifying triple into one table key.
pub open spec fn spec_stream_key(link_id: u8, system_id: u8, component_id: u8) -> u64 {
    (link_id * 0x10000 + system_id * 0x100 + component_id) as u64
}

/// The stream key of a frame.
pub open spec fn spec_msg_stream_key(m: Seq<u8>) -> u64 {
    spec_stream_key(spec_signature_link_id(m), spec_system_id(m), spec_component_id(m))
}

/// The floor after it tracked the clock reading `now`.
pub open spec fn spec_raised_floor(floor: u64, now: u64) -> u64 {
    if now > floor {
        now
    } else {
        floor
    }
}

/// The pure timestamp acceptance rule, decoupled from the MAC comparison: a
/// stream that was seen before demands a strictly increasing timestamp; a
/// first-ever message may lie at most the window below the floor.
pub open spec fn spec_timestamp_acceptable(
    has_prior: bool,
    prior_timestamp: u64,
    floor: u64,
    timestamp: u64,
) -> bool {
    if has_prior {
        timestamp > prior_timestamp
    } else {
        timestamp + NEW_STREAM_WINDOW_TICKS >= floor
    }
}

/// The timestamp acceptance rule applied to a frame, against a state whose
/// floor was already raised to `floor`.
pub open spec fn spec_stream_check(st: StateModel, m: Seq<u8>, floor: u64) -> bool {
    spec_timestamp_acceptable(
        st.stream_timestamps.contains_key(spec_msg_stream_key(m)),
        if st.stream_timestamps.contains_key(spec_msg_stream_key(m)) {
            st.stream_timestamps[spec_msg_stream_key(m)]
        } else {
            0
        },
        floor,
        spec_signature_timestamp(m),
    )
}

/// Whether verification accepts the frame: an unsigned frame exactly when
/// policy allows unsigned traffic; a signed frame exactly when its timestamp
/// passes the stream check against the raised floor and its MAC field equals
/// the keyed MAC over the signable bytes.
pub open spec fn spec_verify_result(cfg: ConfigModel, st: StateModel, m: Seq<u8>, now: u64) -> bool {
    if !spec_is_signed(m) {
        cfg.allow_unsigned
    } else {
        &&& spec_stream_check(st, m, spec_raised_floor(st.timestamp, now))
        &&& spec_signature_value(m) == mac48(cfg.secret_key, spec_signable(m))
    }
}

/// The signing state after a verification call: untouched for an unsigned
/// frame; otherwise the floor tracks the clock unconditionally, and on
/// acceptance the stream table records the frame's timestamp and the floor
/// tracks it too.
pub open spec fn spec_verify_state(
    cfg: ConfigModel,
    st: StateModel,
    m: Seq<u8>,
    now: u64,
) -> StateModel {
    if !spec_is_signed(m) {
        st
    } else {
        let floor = spec_raised_floor(st.timestamp, now);
        if spec_verify_result(cfg, st, m, now) {
            StateModel {
                timestamp: spec_raised_floor(floor, spec_signature_timestamp(m)),
                stream_timestamps: st.stream_timestamps.insert(
                    spec_msg_stream_key(m),
                    spec_signature_timestamp(m),
                ),
            }
        } else {
            StateModel { timestamp: floor, stream_timestamps: st.stream_timestamps }
        }
    }
}

/// The timestamp stamped into a frame signed at clock reading `now`.
pub open spec fn spec_sign_timestamp(st: StateModel, now: u64) -> u64 {
    spec_raised_floor(st.timestamp, now)
}

/// The signing state after a sign call: untouched for a frame whose signed
/// flag is clear; otherwise the floor moves one past the stamped timestamp,
/// so that a second frame signed within the same clock tick still receives a
/// strictly larger timestamp.
pub open spec fn spec_sign_state(st: StateModel, m: Seq<u8>, now: u64) -> StateModel {
    if !spec_is_signed(m) {
        st
    } else {
        StateModel {
            timestamp: (spec_sign_timestamp(st, now) + 1) as u64,
            stream_timestamps: st.stream_timestamps,
        }
    }
}

/// The frame after a sign call: untouched when its signed flag is clear,
/// otherwise carrying the stamped timestamp, the configured link id and the
/// freshly computed MAC.
pub open spec fn spec_sign_frame(cfg: ConfigModel, st: StateModel, m: Seq<u8>, now: u64) -> Seq<
    u8,
> {
    if !spec_is_signed(m) {
        m
    } else {
        spec_signed_frame(m, cfg.link_id, spec_sign_timestamp(st, now), cfg.secret_key)
    }
}

/// Packs a stream's identifying triple into one table key.
pub fn stream_key(link_id: u8, system_id: u8, component_id: u8) -> (r: u64)
    ensures
        r == spec_stream_key(link_id, system_id, component_id),
{
    (link_id as u64) * 0x10000 + (system_id as u64) * 0x100 + (component_id as u64)
}

/// The pure timestamp acceptance decision, decoupled from the MAC comparison
/// so that the replay-window behavior can be exercised without a valid
/// signature.
pub fn timestamp_acceptable(has_prior: bool, prior_timestamp: u64, floor: u64, timestamp: u64) -> (r:
    bool)
    ensures
        r == spec_timestamp_acceptable(has_prior, prior_timestamp, floor, timestamp),
{
    if has_prior {
        timestamp > prior_timestamp
    } else {
        floor <= NEW_STREAM_WINDOW_TICKS || timestamp >= floor - NEW_STREAM_WINDOW_TICKS
    }
}

/// Immutable signing policy and key material, shared read-only by every
/// operation of one [`SigningData`].
#[derive(Debug, Clone)]
pub struct SigningConfig {
    secret_key: [u8; 32],
    link_id: u8,
    sign_outgoing: bool,
    allow_unsigned: bool,
}

impl View for SigningConfig {
    type V = ConfigModel;

    closed spec fn view(&self) -> ConfigModel {
        ConfigModel {
            secret_key: self.secret_key@,
            link_id: self.link_id,
            sign_outgoing: self.sign_outgoing,
            allow_unsigned: self.allow_unsigned,
        }
    }
}

impl SigningConfig {
    /// Creates a new signing configuration.
    ///
    /// `sign_outgoing` is the policy flag the calling layer consults to
    /// decide whether to request signing on outbound frames; this subsystem
    /// does not branch on it itself. If `allow_unsigned` is set, unsigned
    /// inbound frames are accepted without further checks.
    pub fn new(secret_key: [u8; 32], link_id: u8, sign_outgoing: bool, allow_unsigned: bool) -> (r:
        Self)
        ensures
            r@ == (ConfigModel { secret_key: secret_key@, link_id, sign_outgoing, allow_unsigned }),
    {
        Self { secret_key, link_id, sign_outgoing, allow_unsigned }
    }

    /// Whether the calling layer should request signing on outbound frames.
    pub fn sign_outgoing(&self) -> (r: bool)
        ensures
            r == self@.sign_outgoing,
    {
        self.sign_outgoing
    }

    /// Whether unsigned inbound frames are accepted.
    pub fn allow_unsigned(&self) -> (r: bool)
        ensures
            r == self@.allow_unsigned,
    {
        self.allow_unsigned
    }

    /// The link id written into outbound signatures.
    pub fn link_id(&self) -> (r: u8)
        ensures
            r == self@.link_id,
    {
        self.link_id
    }
}

/// Mutable signing state of one connection.
struct SigningState {
    timestamp: u64,
    stream_timestamps: HashMap<u64, u64>,
}

/// Message signing data of one connection: an immutable [`SigningConfig`]
/// and the mutable state every verified or signed frame passes through.
/// Exclusive access to the state is expressed by the `&mut self` receivers
/// of [`SigningData::verify_signature`] and [`SigningData::sign_message`].
pub struct SigningData {
    config: SigningConfig,
    state: SigningState,
}

impl View for SigningData {
    type V = DataModel;

    closed spec fn view(&self) -> DataModel {
        DataModel {
            config: self.config@,
            state: StateModel {
                timestamp: self.state.timestamp,
                stream_timestamps: self.state.stream_timestamps@,
            },
        }
    }
}

impl SigningData {
    /// Initializes signing data from a given [`SigningConfig`], with the
    /// floor at zero and an empty stream table.
    pub fn from_config(config: SigningConfig) -> (r: Self)
        ensures
            r@.config == config@,
            r@.state.timestamp == 0,
            r@.state.stream_timestamps == Map::<u64, u64>::empty(),
    {
        SigningData { config, state: SigningState { timestamp: 0, stream_timestamps: HashMap::new() } }
    }

    /// The current signature timestamp: ten-microsecond ticks since the 2015
    /// reference epoch, read from the wall clock, zero when the clock reads
    /// earlier than that epoch.
    pub fn get_current_timestamp() -> (r: u64)
        ensures
            r < TIMESTAMP_MODULUS,
            exists|unix_micros: int| r == spec_ticks(unix_micros),
    {
        let micros = unix_time_micros();
        let r = ticks_from_unix_micros(micros);
        proof {
            assert(exists|unix_micros: int| r == spec_ticks(unix_micros)) by {
                assert(r == spec_ticks(micros as int));
            }
        }
        r
    }

    /// Verifies the signature of a frame against the state as it stands at
    /// clock reading `now`.
    ///
    /// The result and the state change are exactly those of the transition
    /// [`spec_verify_result`] / [`spec_verify_state`]: unsigned frames are
    /// accepted verbatim by policy with no state change; signed frames raise
    /// the floor unconditionally, and are accepted exactly when their
    /// timestamp passes the per-stream check and their MAC matches.
    pub fn verify_signature_at(&mut self, message: &MAVLinkV2MessageRaw, now: u64) -> (r: bool)
        requires
            message.wf(),
        ensures
            r == spec_verify_result(old(self)@.config, old(self)@.state, message@, now),
            final(self)@.config == old(self)@.config,
            final(self)@.state == spec_verify_state(old(self)@.config, old(self)@.state, message@, now),
    {
        if message.is_signed() {
            let floor = if now > self.state.timestamp {
                now
            } else {
                self.state.timestamp
            };
            self.state.timestamp = floor;
            let key = stream_key(
                message.signature_link_id(),
                message.system_id(),
                message.component_id(),
            );
            let timestamp = message.signature_timestamp();
            let acceptable = match self.state.stream_timestamps.get(&key) {
                Some(prior) => timestamp_acceptable(true, *prior, floor, timestamp),
                None => timestamp_acceptable(false, 0, floor, timestamp),
            };
            if !acceptable {
                proof {
                    assert(self@.state =~= spec_verify_state(
                        old(self)@.config,
                        old(self)@.state,
                        message@,
                        now,
                    ));
                }
                return false;
            }
            let mac = message.calculate_signature(&self.config.secret_key);
            let result = message.signature_matches(&mac);
            if result {
                self.state.stream_timestamps.insert(key, timestamp);
                if timestamp > self.state.timestamp {
                    self.state.timestamp = timestamp;
                }
            }
            proof {
                assert(self@.state =~= spec_verify_state(
                    old(self)@.config,
                    old(self)@.state,
                    message@,
                    now,
                ));
            }
            result
        } else {
            self.config.allow_unsigned
        }
    }

    /// Verifies the signature of a frame, reading the clock for the floor
    /// raise. The outcome is that of [`verify_signature_at`](Self::verify_signature_at)
    /// for the clock reading the call observed.
    pub fn verify_signature(&mut self, message: &MAVLinkV2MessageRaw) -> (r: bool)
        requires
            message.wf(),
        ensures
            final(self)@.config == old(self)@.config,
            exists|now: u64|
                now < TIMESTAMP_MODULUS && r == spec_verify_result(
                    old(self)@.config,
                    old(self)@.state,
                    message@,
                    now,
                ) && final(self)@.state == spec_verify_state(
                    old(self)@.config,
                    old(self)@.state,
                    message@,
                    now,
                ),
    {
        let now = Self::get_current_timestamp();
        self.verify_signature_at(message, now)
    }

    /// Signs a frame in place at clock reading `now`, if its signed
    /// incompatibility flag is set by the caller; a frame with the flag
    /// clear is left untouched, as is the state.
    ///
    /// The frame and state afterwards are exactly [`spec_sign_frame`] and
    /// [`spec_sign_state`]: the floor tracks the clock, its value is stamped
    /// into the timestamp field together with the configured link id, the
    /// keyed MAC over everything preceding the MAC field is written into it,
    /// and the floor then moves one past the stamped timestamp.
    pub fn sign_message_at(&mut self, message: &mut MAVLinkV2MessageRaw, now: u64)
        requires
            old(message).wf(),
            old(self)@.state.timestamp < u64::MAX,
            now < u64::MAX,
        ensures
            final(self)@.config == old(self)@.config,
            final(self)@.state == spec_sign_state(old(self)@.state, old(message)@, now),
            final(message)@ == spec_sign_frame(old(self)@.config, old(self)@.state, old(message)@, now),
            final(message).wf(),
    {
        if message.is_signed() {
            let t = if now > self.state.timestamp {
                now
            } else {
                self.state.timestamp
            };
            message.set_signature_timestamp(t);
            message.set_signature_link_id(self.config.link_id);
            let mac = message.calculate_signature(&self.config.secret_key);
            message.set_signature_value(&mac);
            self.state.timestamp = t + 1;
            proof {
                assert(message@ =~= spec_sign_frame(
                    old(self)@.config,
                    old(self)@.state,
                    old(message)@,
                    now,
                ));
                assert(self@.state =~= spec_sign_state(old(self)@.state, old(message)@, now));
            }
        }
    }

    /// Signs a frame in place, reading the clock for the timestamp. The
    /// outcome is that of [`sign_message_at`](Self::sign_message_at) for the
    /// clock reading the call observed.
    pub fn sign_message(&mut self, message: &mut MAVLinkV2MessageRaw)
        requires
            old(message).wf(),
            old(self)@.state.timestamp < u64::MAX,
        ensures
            final(self)@.config == old(self)@.config,
            final(message).wf(),
            exists|now: u64|
                now < TIMESTAMP_MODULUS && final(self)@.state == spec_sign_state(
                    old(self)@.state,
                    old(message)@,
                    now,
                ) && final(message)@ == spec_sign_frame(
                    old(self)@.config,
                    old(self)@.state,
                    old(message)@,
                    now,
                ),
    {
        let now = Self::get_current_timestamp();
        self.sign_message_at(message, now);
    }
}

} // verus!
