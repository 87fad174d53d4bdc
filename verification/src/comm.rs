//! Link selector and transmitter: priority-to-band mapping with emergency
//! and failover overrides, per-band timing, the confirmation gate, and the
//! framing of messages and telemetry into CCSDS packets.

use vstd::prelude::*;
use crate::ccsds::{be2, be4, be8, push_u16_be, push_u32_be, push_u64_be, PacketType, SpacePacket};
use crate::commands::{band_for_priority, SpaceCommand};
use crate::error::SpaceCommError;
use crate::messaging::{Message, MessagePayload, MessagePriority};
use crate::telemetry::{Measurement, MeasurementValue, TelemetryPacket};
use crate::types::BandType;

verus! {

/// Number of supported bands.
pub const BAND_COUNT: usize = 5;

/// Configuration and status of one RF band.
#[derive(Debug, Clone, Copy, PartialEq, Eq)]
pub struct BandConfig {
    /// The frequency band.
    pub band_type: BandType,
    /// Current transmit power level, percent.
    pub power_level: u8,
    /// Whether the band is active and operational.
    pub is_active: bool,
    /// Current data rate in bits per second.
    pub data_rate: u64,
    /// Signal quality metric, percent.
    pub signal_quality: u8,
}

/// Failover state of one band.
#[derive(Debug, Clone, Copy, PartialEq, Eq, Structural)]
pub enum LinkState {
    /// The band operates normally.
    Operational,
    /// The band operates with reduced quality.
    Degraded,
    /// The band is unusable.
    Failed,
}

/// The index a band occupies in the manager's tables.
pub open spec fn band_index(b: BandType) -> int {
    match b {
        BandType::UhfBand => 0int,
        BandType::SBand => 1int,
        BandType::XBand => 2int,
        BandType::KBand => 3int,
        BandType::KaBand => 4int,
    }
}

/// The band at each table index.
pub open spec fn band_at(i: int) -> BandType {
    if i == 0 {
        BandType::UhfBand
    } else if i == 1 {
        BandType::SBand
    } else if i == 2 {
        BandType::XBand
    } else if i == 3 {
        BandType::KBand
    } else {
        BandType::KaBand
    }
}

/// The nominal bit rate each band advertises, in bits per second.
pub open spec fn nominal_bit_rate(b: BandType) -> u64 {
    match b {
        BandType::UhfBand => 9_600u64,
        BandType::SBand => 2_000_000u64,
        BandType::XBand => 100_000_000u64,
        BandType::KBand => 1_000_000_000u64,
        BandType::KaBand => 10_000_000_000u64,
    }
}

/// The fallback chain of a preferred band: the band itself, then the
/// remaining bands in descending order of capability down to UHF.
pub open spec fn fallback_chain(preferred: BandType) -> Seq<BandType> {
    match preferred {
        BandType::KaBand => seq![
            BandType::KaBand,
            BandType::KBand,
            BandType::XBand,
            BandType::SBand,
            BandType::UhfBand,
        ],
        BandType::KBand => seq![
            BandType::KBand,
            BandType::XBand,
            BandType::SBand,
            BandType::UhfBand,
        ],
        BandType::XBand => seq![BandType::XBand, BandType::SBand, BandType::UhfBand],
        BandType::SBand => seq![BandType::SBand, BandType::UhfBand],
        BandType::UhfBand => seq![BandType::UhfBand],
    }
}

/// Central manager for band selection, emergency protocols and failover.
pub struct CommunicationManager {
    /// Per-band configuration, indexed by `band_index`.
    bands: Vec<BandConfig>,
    /// Per-band failover state, indexed by `band_index`.
    states: Vec<LinkState>,
    /// Per-band count of successive successful sends, indexed by
    /// `band_index` and saturating at three.
    successes: Vec<u8>,
    /// Current primary band.
    primary_band: BandType,
    /// The primary band before emergency mode was entered.
    pre_emergency_primary: BandType,
    /// Whether emergency mode is on.
    emergency_mode: bool,
}

impl CommunicationManager {
    /// The manager invariant: one entry per band, in table order.
    pub closed spec fn well_formed(self) -> bool {
        &&& self.bands@.len() == BAND_COUNT
        &&& self.states@.len() == BAND_COUNT
        &&& self.successes@.len() == BAND_COUNT
        &&& forall|i: int| 0 <= i < BAND_COUNT ==> self.bands@[i].band_type == band_at(i)
    }

    /// Whether emergency mode is on.
    pub closed spec fn spec_emergency_mode(self) -> bool {
        self.emergency_mode
    }

    /// The current primary band.
    pub closed spec fn spec_primary_band(self) -> BandType {
        self.primary_band
    }

    /// The primary band saved when emergency mode was entered.
    pub closed spec fn spec_pre_emergency_primary(self) -> BandType {
        self.pre_emergency_primary
    }

    /// The failover state of a band.
    pub closed spec fn spec_state(self, b: BandType) -> LinkState {
        self.states@[band_index(b)]
    }

    /// The configuration of a band.
    pub closed spec fn spec_config(self, b: BandType) -> BandConfig {
        self.bands@[band_index(b)]
    }

    /// The successive-success count of a band.
    pub closed spec fn spec_successes(self, b: BandType) -> u8 {
        self.successes@[band_index(b)]
    }

    /// Create a manager with every band active and operational, S band
    /// primary, and the standard power, rate and quality table: UHF at
    /// 50% power and 9.6 kbps, S at 75% and 2 Mbps, X at 80% and
    /// 100 Mbps, K at 90% and 1 Gbps, Ka at 95% and 10 Gbps.
    pub fn new() -> (r: Self)
        ensures
            r.well_formed(),
            !r.spec_emergency_mode(),
            r.spec_primary_band() == BandType::SBand,
            forall|b: BandType| r.spec_state(b) == LinkState::Operational,
            forall|b: BandType| r.spec_config(b).data_rate == nominal_bit_rate(b),
            forall|b: BandType| r.spec_config(b).is_active,
            r.spec_config(BandType::UhfBand).power_level == 50,
            r.spec_config(BandType::SBand).power_level == 75,
            r.spec_config(BandType::XBand).power_level == 80,
            r.spec_config(BandType::KBand).power_level == 90,
            r.spec_config(BandType::KaBand).power_level == 95,
            r.spec_config(BandType::UhfBand).signal_quality == 95,
            r.spec_config(BandType::SBand).signal_quality == 90,
            r.spec_config(BandType::XBand).signal_quality == 85,
            r.spec_config(BandType::KBand).signal_quality == 80,
            r.spec_config(BandType::KaBand).signal_quality == 75,
    {
        let mut bands: Vec<BandConfig> = Vec::new();
        bands.push(BandConfig {
            band_type: BandType::UhfBand,
            power_level: 50,
            is_active: true,
            data_rate: 9_600,
            signal_quality: 95,
        });
        bands.push(BandConfig {
            band_type: BandType::SBand,
            power_level: 75,
            is_active: true,
            data_rate: 2_000_000,
            signal_quality: 90,
        });
        bands.push(BandConfig {
            band_type: BandType::XBand,
            power_level: 80,
            is_active: true,
            data_rate: 100_000_000,
            signal_quality: 85,
        });
        bands.push(BandConfig {
            band_type: BandType::KBand,
            power_level: 90,
            is_active: true,
            data_rate: 1_000_000_000,
            signal_quality: 80,
        });
        bands.push(BandConfig {
            band_type: BandType::KaBand,
            power_level: 95,
            is_active: true,
            data_rate: 10_000_000_000,
            signal_quality: 75,
        });
        let mut states: Vec<LinkState> = Vec::new();
        let mut successes: Vec<u8> = Vec::new();
        let mut i: usize = 0;
        while i < BAND_COUNT
            invariant
                i <= BAND_COUNT,
                states@.len() == i,
                successes@.len() == i,
                forall|j: int| 0 <= j < i ==> states@[j] == LinkState::Operational,
                forall|j: int| 0 <= j < i ==> successes@[j] == 0u8,
            decreases BAND_COUNT - i,
        {
            states.push(LinkState::Operational);
            successes.push(0);
            i = i + 1;
        }
        let r = Self {
            bands,
            states,
            successes,
            primary_band: BandType::SBand,
            pre_emergency_primary: BandType::SBand,
            emergency_mode: false,
        };
        proof {
            assert(forall|b: BandType| 0 <= #[trigger] band_index(b) < 5);
            assert(forall|b: BandType| #[trigger] r.spec_state(b) == LinkState::Operational);
        }
        r
    }

    /// The band that `select_band` returns: UHF whenever emergency mode
    /// is on, otherwise the band the priority tier prefers.
    pub open spec fn spec_select(self, priority: MessagePriority) -> BandType {
        if self.spec_emergency_mode() {
            BandType::UhfBand
        } else {
            band_for_priority(priority)
        }
    }

    /// Select the band for a priority: in emergency mode every priority
    /// goes to UHF; otherwise Emergency traffic prefers K band, Critical
    /// X band, High and Medium S band, and Low UHF.
    pub fn select_band(&self, priority: MessagePriority) -> (r: BandType)
        ensures
            r == self.spec_select(priority),
    {
        if self.emergency_mode {
            return BandType::UhfBand;
        }
        match priority {
            MessagePriority::Emergency => BandType::KBand,
            MessagePriority::Critical => BandType::XBand,
            MessagePriority::High => BandType::SBand,
            MessagePriority::Medium => BandType::SBand,
            MessagePriority::Low => BandType::UhfBand,
        }
    }

    /// Select the band for a message, from its priority alone.
    pub fn select_optimal_band(&self, message: &Message) -> (r: BandType)
        ensures
            r == self.spec_select(message.priority),
    {
        self.select_band(message.priority)
    }

    /// The first band of `chain` whose state is `want`, if any.
    pub open spec fn spec_first_in(self, chain: Seq<BandType>, want: LinkState) -> Option<
        BandType,
    >
        decreases chain.len(),
    {
        if chain.len() == 0 {
            None
        } else if self.spec_state(chain.first()) == want {
            Some(chain.first())
        } else {
            self.spec_first_in(chain.drop_first(), want)
        }
    }

    /// The band that failover selection yields for a preferred band:
    /// the first operational band of the fallback chain, else the first
    /// degraded one, else none.
    pub open spec fn spec_failover(self, preferred: BandType) -> Option<BandType> {
        match self.spec_first_in(fallback_chain(preferred), LinkState::Operational) {
            Some(b) => Some(b),
            None => self.spec_first_in(fallback_chain(preferred), LinkState::Degraded),
        }
    }

    /// Walk the fallback chain of the preferred band and return the
    /// first band whose state is `want`.
    fn first_in_chain(&self, chain: &Vec<BandType>, want: LinkState) -> (r: Option<BandType>)
        requires
            self.well_formed(),
        ensures
            r == self.spec_first_in(chain@, want),
    {
        proof {
            assert(chain@.subrange(0, chain@.len() as int) =~= chain@);
        }
        let mut i: usize = 0;
        while i < chain.len()
            invariant
                self.well_formed(),
                i <= chain@.len(),
                self.spec_first_in(chain@, want) == self.spec_first_in(
                    chain@.subrange(i as int, chain@.len() as int), want),
            decreases chain@.len() - i,
        {
            let b = chain[i];
            proof {
                assert(chain@.subrange(i as int, chain@.len() as int).first() == chain@[i as int]);
                assert(chain@.subrange(i as int, chain@.len() as int).drop_first()
                    =~= chain@.subrange(i + 1, chain@.len() as int));
            }
            let st = self.band_state(b);
            if matches!(st, LinkState::Operational) && matches!(want, LinkState::Operational) {
                return Some(b);
            }
            if matches!(st, LinkState::Degraded) && matches!(want, LinkState::Degraded) {
                return Some(b);
            }
            if matches!(st, LinkState::Failed) && matches!(want, LinkState::Failed) {
                return Some(b);
            }
            i = i + 1;
        }
        proof {
            assert(chain@.subrange(chain@.len() as int, chain@.len() as int).len() == 0);
        }
        None
    }

    /// The fallback chain of a preferred band as a vector.
    fn chain_of(&self, preferred: BandType) -> (r: Vec<BandType>)
        ensures
            r@ =~= fallback_chain(preferred),
    {
        let mut v: Vec<BandType> = Vec::new();
        match preferred {
            BandType::KaBand => {
                v.push(BandType::KaBand);
                v.push(BandType::KBand);
                v.push(BandType::XBand);
                v.push(BandType::SBand);
                v.push(BandType::UhfBand);
            },
            BandType::KBand => {
                v.push(BandType::KBand);
                v.push(BandType::XBand);
                v.push(BandType::SBand);
                v.push(BandType::UhfBand);
            },
            BandType::XBand => {
                v.push(BandType::XBand);
                v.push(BandType::SBand);
                v.push(BandType::UhfBand);
            },
            BandType::SBand => {
                v.push(BandType::SBand);
                v.push(BandType::UhfBand);
            },
            BandType::UhfBand => {
                v.push(BandType::UhfBand);
            },
        }
        v
    }

    /// Select a band for a priority, skipping failed bands: the
    /// priority's preferred band leads a fallback chain of descending
    /// capability, the first operational band wins, a degraded band is
    /// taken only when no operational one remains, and the selection
    /// fails only when every band of the chain has failed. In emergency
    /// mode UHF is selected regardless.
    pub fn select_band_with_failover(&self, priority: MessagePriority) -> (r: Result<
        BandType,
        SpaceCommError,
    >)
        requires
            self.well_formed(),
        ensures
            self.spec_emergency_mode() ==> r == Ok::<BandType, SpaceCommError>(
                BandType::UhfBand),
            !self.spec_emergency_mode() ==> match self.spec_failover(band_for_priority(
                priority)) {
                Some(b) => r == Ok::<BandType, SpaceCommError>(b),
                None => r is Err,
            },
    {
        if self.emergency_mode {
            return Ok(BandType::UhfBand);
        }
        let preferred = match priority {
            MessagePriority::Emergency => BandType::KBand,
            MessagePriority::Critical => BandType::XBand,
            MessagePriority::High => BandType::SBand,
            MessagePriority::Medium => BandType::SBand,
            MessagePriority::Low => BandType::UhfBand,
        };
        let chain = self.chain_of(preferred);
        match self.first_in_chain(&chain, LinkState::Operational) {
            Some(b) => Ok(b),
            None => match self.first_in_chain(&chain, LinkState::Degraded) {
                Some(b) => Ok(b),
                None => Err(SpaceCommError::hardware_failure("All candidate bands failed", 0)),
            },
        }
    }

    /// The configuration of a band.
    pub fn get_band_config(&self, band_type: BandType) -> (r: Option<&BandConfig>)
        requires
            self.well_formed(),
        ensures
            r matches Some(c) && *c == self.spec_config(band_type),
    {
        let i = band_index_value(band_type);
        Some(&self.bands[i])
    }

    /// The failover state of a band.
    pub fn band_state(&self, band_type: BandType) -> (r: LinkState)
        requires
            self.well_formed(),
        ensures
            r == self.spec_state(band_type),
    {
        let i = band_index_value(band_type);
        self.states[i]
    }

    /// Switch emergency mode on or off. Switching on saves the primary
    /// band, forces UHF primary, and halves transmit power on every
    /// non-UHF band; doing so again changes nothing. Switching off
    /// restores the saved primary band and leaves the halved power
    /// levels in place.
    pub fn set_emergency_mode(&mut self, emergency: bool)
        requires
            old(self).well_formed(),
        ensures
            final(self).well_formed(),
            final(self).spec_emergency_mode() == emergency,
            forall|b: BandType| final(self).spec_state(b) == old(self).spec_state(b),
            emergency && !old(self).spec_emergency_mode() ==> {
                &&& final(self).spec_primary_band() == BandType::UhfBand
                &&& final(self).spec_pre_emergency_primary() == old(self).spec_primary_band()
                &&& forall|b: BandType| !(b is UhfBand) ==> final(self).spec_config(
                    b).power_level == old(self).spec_config(b).power_level / 2
                &&& final(self).spec_config(BandType::UhfBand).power_level == old(
                    self).spec_config(BandType::UhfBand).power_level
            },
            emergency && old(self).spec_emergency_mode() ==> *final(self) == *old(self),
            !emergency && old(self).spec_emergency_mode() ==> {
                &&& final(self).spec_primary_band() == old(self).spec_pre_emergency_primary()
                &&& forall|b: BandType| final(self).spec_config(b) == old(self).spec_config(b)
            },
            !emergency && !old(self).spec_emergency_mode() ==> *final(self) == *old(self),
            forall|b: BandType| final(self).spec_config(b).signal_quality == old(
                self).spec_config(b).signal_quality,
    {
        if emergency {
            if self.emergency_mode {
                return ;
            }
            self.pre_emergency_primary = self.primary_band;
            self.primary_band = BandType::UhfBand;
            self.emergency_mode = true;
            let mut i: usize = 1;
            while i < BAND_COUNT
                invariant
                    1 <= i <= BAND_COUNT,
                    self.bands@.len() == BAND_COUNT,
                    self.states == old(self).states,
                    self.successes == old(self).successes,
                    self.emergency_mode,
                    self.primary_band == BandType::UhfBand,
                    self.pre_emergency_primary == old(self).primary_band,
                    forall|j: int| 0 <= j < BAND_COUNT ==> self.bands@[j].band_type == band_at(j),
                    self.bands@[0] == old(self).bands@[0],
                    forall|j: int| 1 <= j < i ==> self.bands@[j] == (BandConfig {
                        power_level: (old(self).bands@[j].power_level / 2) as u8,
                        ..old(self).bands@[j]
                    }),
                    forall|j: int| i <= j < BAND_COUNT ==> self.bands@[j] == old(self).bands@[j],
                decreases BAND_COUNT - i,
            {
                let halved: u8 = self.bands[i].power_level / 2;
                let mut cfg = self.bands[i];
                cfg.power_level = halved;
                self.bands.set(i, cfg);
                i = i + 1;
            }
            proof {
                assert forall|b: BandType| !(b is UhfBand) implies #[trigger] self.spec_config(
                    b).power_level == old(self).spec_config(b).power_level / 2 by {
                    assert(1 <= band_index(b) < 5);
                }
                assert forall|b: BandType| #[trigger] self.spec_state(b) == old(self).spec_state(
                    b) by {
                    assert(0 <= band_index(b) < 5);
                }
            }
        } else {
            if self.emergency_mode {
                self.primary_band = self.pre_emergency_primary;
                self.emergency_mode = false;
            }
        }
    }

    /// Record the outcome of a send on a band. A hardware error fails
    /// the band at once and clears its success count. A success raises
    /// the count, and the third successive success returns the band to
    /// operational.
    pub fn record_send_result(&mut self, band: BandType, success: bool)
        requires
            old(self).well_formed(),
        ensures
            final(self).well_formed(),
            final(self).spec_emergency_mode() == old(self).spec_emergency_mode(),
            final(self).spec_primary_band() == old(self).spec_primary_band(),
            forall|b: BandType| final(self).spec_config(b) == old(self).spec_config(b),
            forall|b: BandType| b != band ==> final(self).spec_state(b) == old(self).spec_state(b)
                && final(self).spec_successes(b) == old(self).spec_successes(b),
            !success ==> final(self).spec_state(band) == LinkState::Failed && final(
                self).spec_successes(band) == 0,
            success ==> {
                let n = if old(self).spec_successes(band) < 3 {
                    (old(self).spec_successes(band) + 1) as u8
                } else {
                    old(self).spec_successes(band)
                };
                &&& final(self).spec_successes(band) == n
                &&& final(self).spec_state(band) == if n >= 3 {
                    LinkState::Operational
                } else {
                    old(self).spec_state(band)
                }
            },
    {
        let i = band_index_value(band);
        if !success {
            self.states.set(i, LinkState::Failed);
            self.successes.set(i, 0);
        } else {
            let n: u8 = if self.successes[i] < 3 {
                self.successes[i] + 1
            } else {
                self.successes[i]
            };
            self.successes.set(i, n);
            if n >= 3 {
                self.states.set(i, LinkState::Operational);
            }
        }
    }

    /// Record a signal quality reading on a band. A reading below 50 on
    /// a band that has not failed degrades it; a band that has failed
    /// stays failed until sends succeed again.
    pub fn record_signal_quality(&mut self, band: BandType, quality: u8)
        requires
            old(self).well_formed(),
        ensures
            final(self).well_formed(),
            final(self).spec_config(band) == (BandConfig {
                signal_quality: quality,
                ..old(self).spec_config(band)
            }),
            forall|b: BandType| b != band ==> final(self).spec_config(b) == old(self).spec_config(
                b),
            forall|b: BandType| b != band ==> final(self).spec_state(b) == old(self).spec_state(
                b),
            final(self).spec_state(band) == if quality < 50 && !(old(self).spec_state(
                band) is Failed) {
                LinkState::Degraded
            } else {
                old(self).spec_state(band)
            },
            final(self).spec_emergency_mode() == old(self).spec_emergency_mode(),
            final(self).spec_primary_band() == old(self).spec_primary_band(),
            forall|b: BandType| final(self).spec_successes(b) == old(self).spec_successes(b),
    {
        let i = band_index_value(band);
        let mut cfg = self.bands[i];
        cfg.signal_quality = quality;
        self.bands.set(i, cfg);
        if quality < 50 && !matches!(self.states[i], LinkState::Failed) {
            self.states.set(i, LinkState::Degraded);
        }
    }

    /// Whether at least one band is active with signal quality above 50.
    pub fn is_communication_healthy(&self) -> (r: bool)
        requires
            self.well_formed(),
        ensures
            r == exists|b: BandType|
                self.spec_config(b).is_active && self.spec_config(b).signal_quality > 50,
    {
        let mut i: usize = 0;
        while i < BAND_COUNT
            invariant
                self.well_formed(),
                i <= BAND_COUNT,
                forall|j: int| 0 <= j < i ==> !(self.bands@[j].is_active
                    && self.bands@[j].signal_quality > 50),
            decreases BAND_COUNT - i,
        {
            if self.bands[i].is_active && self.bands[i].signal_quality > 50 {
                proof {
                    let b = band_at(i as int);
                    assert(self.spec_config(b).is_active && self.spec_config(b).signal_quality
                        > 50);
                }
                return true;
            }
            i = i + 1;
        }
        proof {
            assert forall|b: BandType| !(self.spec_config(b).is_active && self.spec_config(
                b).signal_quality > 50) by {
                assert(0 <= band_index(b) < BAND_COUNT);
            }
        }
        false
    }
}

/// The table index of a band.
pub fn band_index_value(b: BandType) -> (r: usize)
    ensures
        r == band_index(b),
        r < BAND_COUNT,
{
    match b {
        BandType::UhfBand => 0,
        BandType::SBand => 1,
        BandType::XBand => 2,
        BandType::KBand => 3,
        BandType::KaBand => 4,
    }
}

/// Expected on-air duration of a transmission in whole seconds, rounded
/// up: the number of bits divided by the band's nominal bit rate.
pub fn expected_on_air_seconds(band: BandType, bits: u64) -> (r: u64)
    ensures
        r == (bits + nominal_bit_rate(band) - 1) / (nominal_bit_rate(band) as int),
{
    let rate: u64 = match band {
        BandType::UhfBand => 9_600,
        BandType::SBand => 2_000_000,
        BandType::XBand => 100_000_000,
        BandType::KBand => 1_000_000_000,
        BandType::KaBand => 10_000_000_000,
    };
    let q: u64 = bits / rate;
    let rem: u64 = bits % rate;
    if rem == 0 {
        q
    } else {
        q + 1
    }
}

/// The send deadline a caller observes for a priority: 10 ms for High,
/// 100 ms for Medium, one second for Low; Critical and Emergency bypass
/// deadline waits and return none.
pub fn send_deadline_ms(priority: MessagePriority) -> (r: Option<u64>)
    ensures
        r == match priority {
            MessagePriority::High => Some(10u64),
            MessagePriority::Medium => Some(100u64),
            MessagePriority::Low => Some(1000u64),
            MessagePriority::Critical => None::<u64>,
            MessagePriority::Emergency => None::<u64>,
        },
{
    match priority {
        MessagePriority::High => Some(10),
        MessagePriority::Medium => Some(100),
        MessagePriority::Low => Some(1000),
        MessagePriority::Critical => None,
        MessagePriority::Emergency => None,
    }
}

/// Whether a confirmation token authorizes a command for dispatch: a
/// command outside the confirmation set is dispatched with or without
/// a token; a command in the set needs a token, and a command that
/// carries a confirmation code needs the token to equal it.
pub open spec fn token_matches(cmd: SpaceCommand, token: Option<u32>) -> bool {
    if !cmd.spec_requires_confirmation() {
        true
    } else {
        match token {
            None => false,
            Some(t) => match cmd {
                SpaceCommand::EmergencyAbort { confirmation_code, .. } => t == confirmation_code,
                _ => true,
            },
        }
    }
}

/// The confirmation gate at the transmit boundary: a command of the
/// confirmation set presented without a matching token is refused with a
/// configuration error, and nothing is handed to a transceiver.
pub fn authorize_transmission(cmd: &SpaceCommand, token: Option<u32>) -> (r: Result<
    (),
    SpaceCommError,
>)
    ensures
        r is Ok <==> token_matches(*cmd, token),
        r matches Err(e) ==> e == (SpaceCommError::ConfigurationError {
            parameter: "confirmation",
            value: "token",
            reason: "confirmation required",
        }),
{
    if !cmd.requires_confirmation() {
        return Ok(());
    }
    match token {
        None => Err(SpaceCommError::configuration_error(
            "confirmation",
            "token",
            "confirmation required",
        )),
        Some(t) => {
            let ok: bool = match cmd {
                SpaceCommand::EmergencyAbort { confirmation_code, .. } => t == *confirmation_code,
                _ => true,
            };
            if ok {
                Ok(())
            } else {
                Err(SpaceCommError::configuration_error(
                    "confirmation",
                    "token",
                    "confirmation required",
                ))
            }
        },
    }
}

/// Emergency override: when emergency mode is on, band selection yields
/// UHF for every priority.
pub proof fn lemma_emergency_override(m: CommunicationManager, priority: MessagePriority)
    requires
        m.spec_emergency_mode(),
    ensures
        m.spec_select(priority) == BandType::UhfBand,
{
}

/// Confirmation gate: no command of the confirmation set passes the
/// gate without a token.
pub proof fn lemma_confirmation_gate(cmd: SpaceCommand)
    requires
        cmd.spec_requires_confirmation(),
    ensures
        !token_matches(cmd, None),
{
}

/// The APID assigned to a message priority: Emergency 0x001, Critical
/// 0x002, High 0x003, Medium 0x004, Low 0x005.
pub open spec fn apid_for_priority(p: MessagePriority) -> u16 {
    match p {
        MessagePriority::Emergency => 0x001u16,
        MessagePriority::Critical => 0x002u16,
        MessagePriority::High => 0x003u16,
        MessagePriority::Medium => 0x004u16,
        MessagePriority::Low => 0x005u16,
    }
}

/// The APID that telemetry packets use.
pub const TELEMETRY_APID: u16 = 0x100;

/// What `utf8_of` names: the UTF-8 encoding of a character sequence.
pub uninterp spec fn utf8_of(s: Seq<char>) -> Seq<u8>;

/// Relies on str::as_bytes: the UTF-8 bytes of the string, a function of
/// its characters alone; each character encodes to at most four bytes,
/// and an empty string encodes to no bytes.
#[verifier::external_body]
pub(crate) fn string_utf8_bytes(s: &String) -> (r: Vec<u8>)
    ensures
        r@ == utf8_of(s@),
        r@.len() <= 4 * s@.len(),
        s@.len() == 0 ==> r@.len() == 0,
{
    let mut v: Vec<u8> = Vec::new();
    v.extend_from_slice(s.as_bytes());
    v
}

/// The payload bytes of a message framed for the wire: a command
/// payload is its identifier then its parameters; an emergency payload
/// is the alert level, the UTF-8 description, then its data; any other
/// payload is a single zero placeholder byte.
pub open spec fn message_payload_bytes(payload: MessagePayload) -> Seq<u8> {
    match payload {
        MessagePayload::Command { command_id, parameters } => be4(command_id) + parameters@,
        MessagePayload::Emergency { alert_level, description, data } => seq![alert_level]
            + utf8_of(description@) + data@,
        _ => seq![0u8],
    }
}

/// Frame a message as a CCSDS command packet: the APID follows the
/// message priority, the sequence count is the low bits of the message
/// id, and the payload is laid out as `message_payload_bytes`. Fails
/// exactly when the low sixteen bits of the message id overflow the
/// 14-bit sequence count.
pub fn create_message_packet(message: &Message) -> (r: Result<SpacePacket, SpaceCommError>)
    requires
        message.well_formed(),
    ensures
        r is Ok <==> message.id.0 as u16 <= 0x3FFF,
        r matches Ok(p) ==> {
            &&& p.well_formed()
            &&& p.header.packet_type == PacketType::Command
            &&& p.header.apid == apid_for_priority(message.priority)
            &&& p.header.sequence_count == message.id.0 as u16
            &&& p.header.version == 0
            &&& p.data@ == message_payload_bytes(message.payload)
            &&& p.secondary_header is None
            &&& p.error_control is None
        },
{
    let mut payload_data: Vec<u8> = Vec::new();
    match &message.payload {
        MessagePayload::Command { command_id, parameters } => {
            push_u32_be(&mut payload_data, *command_id);
            let mut i: usize = 0;
            while i < parameters.len()
                invariant
                    i <= parameters@.len(),
                    payload_data@ =~= be4(*command_id) + parameters@.subrange(0, i as int),
                decreases parameters@.len() - i,
            {
                payload_data.push(parameters[i]);
                assert(parameters@.subrange(0, i + 1).drop_last() =~= parameters@.subrange(
                    0, i as int));
                i = i + 1;
            }
            assert(parameters@.subrange(0, parameters@.len() as int) =~= parameters@);
        },
        MessagePayload::Emergency { alert_level, description, data } => {
            payload_data.push(*alert_level);
            let desc_bytes = string_utf8_bytes(description);
            let mut i: usize = 0;
            while i < desc_bytes.len()
                invariant
                    i <= desc_bytes@.len(),
                    payload_data@ =~= seq![message.payload->Emergency_alert_level]
                        + desc_bytes@.subrange(0, i as int),
                    desc_bytes@ == utf8_of(message.payload->Emergency_description@),
                decreases desc_bytes@.len() - i,
            {
                payload_data.push(desc_bytes[i]);
                assert(desc_bytes@.subrange(0, i + 1).drop_last() =~= desc_bytes@.subrange(
                    0, i as int));
                i = i + 1;
            }
            assert(desc_bytes@.subrange(0, desc_bytes@.len() as int) =~= desc_bytes@);
            let mut j: usize = 0;
            while j < data.len()
                invariant
                    j <= data@.len(),
                    payload_data@ =~= seq![message.payload->Emergency_alert_level] + utf8_of(
                        message.payload->Emergency_description@) + data@.subrange(0, j as int),
                    data@ == message.payload->Emergency_data@,
                decreases data@.len() - j,
            {
                payload_data.push(data[j]);
                assert(data@.subrange(0, j + 1).drop_last() =~= data@.subrange(0, j as int));
                j = j + 1;
            }
            assert(data@.subrange(0, data@.len() as int) =~= data@);
        },
        _ => {
            payload_data.push(0x00);
        },
    }
    let apid: u16 = match message.priority {
        MessagePriority::Emergency => 0x001,
        MessagePriority::Critical => 0x002,
        MessagePriority::High => 0x003,
        MessagePriority::Medium => 0x004,
        MessagePriority::Low => 0x005,
    };
    let sequence: u16 = #[verifier::truncate] (message.id.value() as u16);
    if sequence > 0x3FFF {
        return Err(SpaceCommError::invalid_packet(
            "Sequence count exceeds 14-bit maximum",
            None,
        ));
    }
    proof {
        assert(payload_data@ =~= message_payload_bytes(message.payload));
        assert(payload_data@.len() <= 4 + 4 * 256 + 512);
    }
    SpacePacket::new(PacketType::Command, apid, sequence, payload_data.as_slice(), None)
}

/// The wire bytes of one measurement value: a double-precision reading
/// as its eight pattern bytes, an integer as its low four bytes, and
/// any other variant as four placeholder zero bytes.
pub open spec fn measurement_value_bytes(v: MeasurementValue) -> Seq<u8> {
    match v {
        MeasurementValue::Float(bits) => be8(bits),
        MeasurementValue::Integer(x) => be4(x as u32),
        _ => seq![0u8, 0u8, 0u8, 0u8],
    }
}

/// The wire bytes of one measurement: its identifier, then its value.
pub open spec fn measurement_bytes(m: Measurement) -> Seq<u8> {
    be2(m.measurement_id) + measurement_value_bytes(m.value)
}

/// The wire bytes of a measurement list, in order.
pub open spec fn measurements_bytes(s: Seq<Measurement>) -> Seq<u8>
    decreases s.len(),
{
    if s.len() == 0 {
        Seq::empty()
    } else {
        measurements_bytes(s.drop_last()) + measurement_bytes(s.last())
    }
}

/// The bytes of a measurement list grow by at most ten per measurement.
pub proof fn lemma_measurements_bytes_len(s: Seq<Measurement>)
    ensures
        measurements_bytes(s).len() <= s.len() * 10,
    decreases s.len(),
{
    if s.len() > 0 {
        lemma_measurements_bytes_len(s.drop_last());
    }
}

/// The telemetry payload: the timestamp, the measurement count, then
/// each measurement in order.
pub open spec fn telemetry_payload_bytes(p: TelemetryPacket) -> Seq<u8> {
    be8(p.data.timestamp) + be2(p.data.measurements@.len() as u16) + measurements_bytes(
        p.data.measurements@)
}

/// Frame a telemetry packet as a CCSDS telemetry packet under the
/// telemetry APID; the sequence count is the low bits of the telemetry
/// sequence number. Fails exactly when those bits overflow the 14-bit
/// sequence count.
pub fn create_telemetry_packet(packet: &TelemetryPacket) -> (r: Result<
    SpacePacket,
    SpaceCommError,
>)
    requires
        packet.data.well_formed(),
    ensures
        r is Ok <==> packet.sequence as u16 <= 0x3FFF,
        r matches Ok(p) ==> {
            &&& p.well_formed()
            &&& p.header.packet_type == PacketType::Telemetry
            &&& p.header.apid == TELEMETRY_APID
            &&& p.header.sequence_count == packet.sequence as u16
            &&& p.data@ == telemetry_payload_bytes(*packet)
            &&& p.secondary_header is None
            &&& p.error_control is None
        },
{
    let mut payload_data: Vec<u8> = Vec::new();
    push_u64_be(&mut payload_data, packet.data.timestamp);
    push_u16_be(&mut payload_data, packet.data.measurements.len() as u16);
    let ghost base = payload_data@;
    let mut i: usize = 0;
    while i < packet.data.measurements.len()
        invariant
            i <= packet.data.measurements@.len(),
            payload_data@ =~= base + measurements_bytes(packet.data.measurements@.subrange(
                0, i as int)),
        decreases packet.data.measurements@.len() - i,
    {
        let m = &packet.data.measurements[i];
        push_u16_be(&mut payload_data, m.measurement_id);
        match &m.value {
            MeasurementValue::Float(bits) => {
                push_u64_be(&mut payload_data, *bits);
            },
            MeasurementValue::Integer(x) => {
                push_u32_be(&mut payload_data, #[verifier::truncate] (*x as u32));
            },
            _ => {
                payload_data.push(0);
                payload_data.push(0);
                payload_data.push(0);
                payload_data.push(0);
            },
        }
        proof {
            let pre = packet.data.measurements@.subrange(0, i as int);
            let cur = packet.data.measurements@.subrange(0, i + 1);
            assert(cur.drop_last() =~= pre);
            assert(cur.last() == packet.data.measurements@[i as int]);
        }
        i = i + 1;
    }
    proof {
        assert(packet.data.measurements@.subrange(0, packet.data.measurements@.len() as int)
            =~= packet.data.measurements@);
        lemma_measurements_bytes_len(packet.data.measurements@);
        assert(payload_data@.len() <= 10 + packet.data.measurements@.len() * 10);
    }
    let sequence: u16 = #[verifier::truncate] (packet.sequence as u16);
    if sequence > 0x3FFF {
        return Err(SpaceCommError::invalid_packet(
            "Sequence count exceeds 14-bit maximum",
            None,
        ));
    }
    SpacePacket::new(PacketType::Telemetry, TELEMETRY_APID, sequence, payload_data.as_slice(),
        None)
}

} // verus!
