//! System configuration registers.
//!
//! These registers control sleep-mode retention, the 64 kHz real-time
//! clock, crystal oscillator trimming and event masking.

use crate::wire::{spec_u16_be, spec_u16_from_be, u16_from_be};
use vstd::prelude::*;

verus! {

/// Capacity of the retention list.
pub const MAX_RETENTION_ENTRIES: usize = 4;

/// Error for a retention-list count byte larger than the capacity.
#[derive(Debug, Clone, Copy, PartialEq, Eq, Structural)]
pub struct InvalidEntryCount(pub u8);

/// Retention list register (address 0x02F9).
///
/// Holds the addresses of up to four registers whose values the chip
/// retains during sleep mode. The wire format is one live-count byte
/// followed by four 16-bit big-endian address slots; the chip honours
/// only the first `count` slots.
#[derive(Debug, Clone, Copy, PartialEq, Eq)]
pub struct RetentionList {
    /// Number of valid entries, at most four.
    n_entries: u8,
    /// Address slots; slots at and beyond `n_entries` are dead storage.
    entries: [u16; MAX_RETENTION_ENTRIES],
}

impl RetentionList {
    /// Number of live entries.
    pub closed spec fn spec_count(self) -> u8 {
        self.n_entries
    }

    /// All four address slots, live and dead.
    pub closed spec fn spec_raw(self) -> Seq<u16> {
        self.entries@
    }

    /// There are exactly four slots, and the live count never exceeds
    /// the capacity, so the live entries are `spec_count()` many.
    pub open spec fn wf(self) -> bool {
        self.spec_count() <= MAX_RETENTION_ENTRIES && self.spec_raw().len()
            == MAX_RETENTION_ENTRIES
    }

    /// The live entries, in insertion order.
    pub open spec fn spec_entries(self) -> Seq<u16> {
        self.spec_raw().take(self.spec_count() as int)
    }

    /// The register address.
    pub fn id() -> (r: u16)
        ensures
            r == 0x02F9,
    {
        0x02F9
    }

    /// Returns the live entries as a vector.
    pub fn get_entries(&self) -> (r: Vec<u16>)
        requires
            self.wf(),
        ensures
            r@ == self.spec_entries(),
    {
        let n = self.n_entries as usize;
        let mut r: Vec<u16> = Vec::new();
        let mut i: usize = 0;
        while i < n
            invariant
                i <= n,
                n == self.spec_count(),
                self.wf(),
                r@ == self.spec_entries().take(i as int),
            decreases n - i,
        {
            r.push(self.entries[i]);
            proof {
                assert(r@ =~= self.spec_entries().take(i + 1));
            }
            i += 1;
        }
        proof {
            assert(self.spec_entries().take(n as int) =~= self.spec_entries());
        }
        r
    }

    /// Returns the index of the first live entry equal to `reg_addr`,
    /// or `None` if no live entry matches.
    fn index_of(&self, reg_addr: u16) -> (r: Option<usize>)
        requires
            self.wf(),
        ensures
            match r {
                Some(i) => i < self.spec_count() && self.spec_entries()[i as int] == reg_addr
                    && (forall|j: int| 0 <= j < i ==> self.spec_entries()[j] != reg_addr),
                None => !self.spec_entries().contains(reg_addr),
            },
    {
        let n = self.n_entries as usize;
        let mut i: usize = 0;
        while i < n
            invariant
                i <= n,
                n == self.spec_count(),
                self.wf(),
                forall|j: int| 0 <= j < i ==> self.spec_entries()[j] != reg_addr,
            decreases n - i,
        {
            if self.entries[i] == reg_addr {
                return Some(i);
            }
            i += 1;
        }
        proof {
            assert(forall|j: int|
                0 <= j < self.spec_entries().len() ==> self.spec_entries()[j] != reg_addr);
        }
        None
    }

    /// Adds a register address to the retention list.
    ///
    /// Succeeds without change when the address is already present,
    /// however full the list is; fails when the address is absent and
    /// the list is already at capacity.
    pub fn add_entry(&mut self, reg_addr: u16) -> (r: Result<(), ()>)
        requires
            old(self).wf(),
        ensures
            final(self).wf(),
            old(self).spec_entries().contains(reg_addr) ==> r == Ok::<(), ()>(()) && *final(self)
                == *old(self),
            !old(self).spec_entries().contains(reg_addr) && old(self).spec_count()
                >= MAX_RETENTION_ENTRIES ==> r == Err::<(), ()>(()) && *final(self) == *old(self),
            !old(self).spec_entries().contains(reg_addr) && old(self).spec_count()
                < MAX_RETENTION_ENTRIES ==> r == Ok::<(), ()>(()) && final(self).spec_count()
                == old(self).spec_count() + 1 && final(self).spec_raw() == old(self).spec_raw().update(
                old(self).spec_count() as int,
                reg_addr,
            ) && final(self).spec_entries() == old(self).spec_entries().push(reg_addr),
    {
        if self.index_of(reg_addr).is_some() {
            return Ok(());
        }
        if (self.n_entries as usize) >= MAX_RETENTION_ENTRIES {
            return Err(());
        }
        self.entries[self.n_entries as usize] = reg_addr;
        self.n_entries = self.n_entries + 1;
        proof {
            assert(final(self).spec_entries() =~= old(self).spec_entries().push(reg_addr));
        }
        Ok(())
    }

    /// Removes a register address from the retention list.
    ///
    /// The removed slot is filled by swapping in the last live entry, so
    /// the order of the remaining entries is not preserved; the vacated
    /// last slot keeps its old value as dead storage. Fails without
    /// change when the address is not present.
    pub fn remove_entry(&mut self, reg_addr: u16) -> (r: Result<(), ()>)
        requires
            old(self).wf(),
        ensures
            final(self).wf(),
            !old(self).spec_entries().contains(reg_addr) ==> r == Err::<(), ()>(())
                && *final(self) == *old(self),
            old(self).spec_entries().contains(reg_addr) ==> r == Ok::<(), ()>(())
                && final(self).spec_count() == old(self).spec_count() - 1 && exists|i: int|
                #![auto]
                0 <= i < old(self).spec_entries().len() && old(self).spec_entries()[i] == reg_addr
                    && (forall|j: int| 0 <= j < i ==> old(self).spec_entries()[j] != reg_addr)
                    && final(self).spec_raw() == old(self).spec_raw().update(
                    i,
                    old(self).spec_raw()[old(self).spec_count() - 1],
                ),
    {
        match self.index_of(reg_addr) {
            Some(i) => {
                self.n_entries = self.n_entries - 1;
                let last = self.n_entries as usize;
                if i != last {
                    self.entries[i] = self.entries[last];
                } else {
                    proof {
                        assert(old(self).spec_raw().update(
                            i as int,
                            old(self).spec_raw()[i as int],
                        ) =~= old(self).spec_raw());
                    }
                }
                Ok(())
            },
            None => Err(()),
        }
    }

    /// The count byte followed by all four 16-bit slots, big-endian.
    pub open spec fn spec_to_bytes(self) -> Seq<u8> {
        seq![self.spec_count()] + spec_u16_be(self.spec_raw()[0]) + spec_u16_be(self.spec_raw()[1])
            + spec_u16_be(self.spec_raw()[2]) + spec_u16_be(self.spec_raw()[3])
    }

    /// The count and slots read back from nine wire bytes; a count byte
    /// beyond the capacity is rejected.
    pub open spec fn spec_from_bytes(bytes: Seq<u8>) -> Result<(u8, Seq<u16>), InvalidEntryCount>
        recommends
            bytes.len() == 9,
    {
        if bytes[0] > MAX_RETENTION_ENTRIES {
            Err(InvalidEntryCount(bytes[0]))
        } else {
            Ok(
                (
                    bytes[0],
                    seq![
                        spec_u16_from_be(bytes[1], bytes[2]),
                        spec_u16_from_be(bytes[3], bytes[4]),
                        spec_u16_from_be(bytes[5], bytes[6]),
                        spec_u16_from_be(bytes[7], bytes[8]),
                    ],
                ),
            )
        }
    }

    pub fn to_bytes(self) -> (r: [u8; 9])
        ensures
            r@ == self.spec_to_bytes(),
    {
        let r = [
            self.n_entries,
            (self.entries[0] / 0x100) as u8,
            (self.entries[0] % 0x100) as u8,
            (self.entries[1] / 0x100) as u8,
            (self.entries[1] % 0x100) as u8,
            (self.entries[2] / 0x100) as u8,
            (self.entries[2] % 0x100) as u8,
            (self.entries[3] / 0x100) as u8,
            (self.entries[3] % 0x100) as u8,
        ];
        proof {
            assert(r@ =~= self.spec_to_bytes());
        }
        r
    }

    pub fn from_bytes(bytes: [u8; 9]) -> (r: Result<RetentionList, InvalidEntryCount>)
        ensures
            match r {
                Ok(l) => Self::spec_from_bytes(bytes@) == Ok::<_, InvalidEntryCount>(
                    (l.spec_count(), l.spec_raw()),
                ) && l.wf(),
                Err(e) => Self::spec_from_bytes(bytes@) == Err::<(u8, Seq<u16>), _>(e),
            },
    {
        let n_entries = bytes[0];
        if n_entries as usize > MAX_RETENTION_ENTRIES {
            return Err(InvalidEntryCount(n_entries));
        }
        let entries = [
            u16_from_be(bytes[1], bytes[2]),
            u16_from_be(bytes[3], bytes[4]),
            u16_from_be(bytes[5], bytes[6]),
            u16_from_be(bytes[7], bytes[8]),
        ];
        let l = RetentionList { n_entries, entries };
        proof {
            assert(l.spec_raw() =~= Self::spec_from_bytes(bytes@).unwrap().1);
        }
        Ok(l)
    }
}

impl Default for RetentionList {
    /// An empty retention list with zeroed slots.
    fn default() -> (r: Self)
        ensures
            r.wf(),
            r.spec_count() == 0,
            r.spec_entries() == Seq::<u16>::empty(),
            r.spec_raw() == seq![0u16, 0u16, 0u16, 0u16],
    {
        let r = RetentionList { n_entries: 0, entries: [0; MAX_RETENTION_ENTRIES] };
        proof {
            assert(r.spec_raw() =~= seq![0u16, 0u16, 0u16, 0u16]);
            assert(r.spec_entries() =~= Seq::<u16>::empty());
        }
        r
    }
}

/// Decoding an encoded well-formed retention list recovers its count and
/// all four slots exactly.
pub proof fn lemma_retention_list_roundtrip(v: RetentionList)
    requires
        v.wf(),
    ensures
        RetentionList::spec_from_bytes(v.spec_to_bytes()) == Ok::<_, InvalidEntryCount>(
            (v.spec_count(), v.spec_raw()),
        ),
{
    let b = v.spec_to_bytes();
    assert(RetentionList::spec_from_bytes(b).unwrap().1 =~= v.spec_raw());
}

/// RTC control register (address 0x0902).
///
/// Enables the 64 kHz real-time clock used for sleep wake-up, RX duty
/// cycling and timeouts.
#[derive(Debug, Clone, Copy, PartialEq, Eq, Structural)]
pub struct RtcControl {
    /// True when the RTC runs; false (the default) when stopped.
    pub enabled: bool,
}

impl RtcControl {
    /// The register address.
    pub fn id() -> (r: u16)
        ensures
            r == 0x0902,
    {
        0x0902
    }

    /// One byte: 1 when enabled, 0 otherwise.
    pub open spec fn spec_to_bytes(self) -> Seq<u8> {
        seq![
            if self.enabled {
                1u8
            } else {
                0u8
            },
        ]
    }

    /// The enable flag read back from bit 0 of one byte; higher bits
    /// are ignored.
    pub open spec fn spec_from_bytes(bytes: Seq<u8>) -> RtcControl
        recommends
            bytes.len() == 1,
    {
        RtcControl { enabled: bytes[0] % 2 == 1 }
    }

    pub fn to_bytes(self) -> (r: [u8; 1])
        ensures
            r@ == self.spec_to_bytes(),
    {
        let r = [
            if self.enabled {
                1u8
            } else {
                0u8
            },
        ];
        proof {
            assert(r@ =~= self.spec_to_bytes());
        }
        r
    }

    pub fn from_bytes(bytes: [u8; 1]) -> (r: RtcControl)
        ensures
            r == RtcControl::spec_from_bytes(bytes@),
    {
        RtcControl { enabled: bytes[0] % 2 == 1 }
    }
}

impl Default for RtcControl {
    /// RTC disabled.
    fn default() -> (r: Self)
        ensures
            r == (RtcControl { enabled: false }),
    {
        RtcControl { enabled: false }
    }
}

/// Decoding the encoded RTC control recovers it.
pub proof fn lemma_rtc_control_roundtrip(v: RtcControl)
    ensures
        RtcControl::spec_from_bytes(v.spec_to_bytes()) == v,
{
}

/// XTA trim register (address 0x0911).
///
/// Crystal load capacitance on the XTA pin, in steps of 0.47 pF from
/// 11.3 pF (0x00) to 33.4 pF (0x2F); only trim codes whose bits fit
/// the 0x2F mask reach the wire.
#[derive(Debug, Clone, Copy, PartialEq, Eq, Structural)]
pub struct XtaTrim {
    /// Capacitance trim code; the cold-start default is 0x05 (13.6 pF).
    pub value: u8,
}

impl XtaTrim {
    /// The register address.
    pub fn id() -> (r: u16)
        ensures
            r == 0x0911,
    {
        0x0911
    }

    /// Only trim codes unchanged by the 0x2F wire mask survive a round
    /// trip.
    pub open spec fn wf(self) -> bool {
        self.value & 0x2F == self.value
    }

    /// One byte holding the trim code masked to 0x2F.
    pub open spec fn spec_to_bytes(self) -> Seq<u8> {
        seq![self.value & 0x2F]
    }

    /// The trim code read back from one byte, masked to 0x2F.
    pub open spec fn spec_from_bytes(bytes: Seq<u8>) -> XtaTrim
        recommends
            bytes.len() == 1,
    {
        XtaTrim { value: bytes[0] & 0x2F }
    }

    pub fn to_bytes(self) -> (r: [u8; 1])
        ensures
            r@ == self.spec_to_bytes(),
    {
        let r = [self.value & 0x2F];
        proof {
            assert(r@ =~= self.spec_to_bytes());
        }
        r
    }

    pub fn from_bytes(bytes: [u8; 1]) -> (r: XtaTrim)
        ensures
            r == XtaTrim::spec_from_bytes(bytes@),
    {
        XtaTrim { value: bytes[0] & 0x2F }
    }
}

impl Default for XtaTrim {
    /// The cold-start default trim.
    fn default() -> (r: Self)
        ensures
            r == (XtaTrim { value: 0x05 }),
    {
        XtaTrim { value: 0x05 }
    }
}

/// Decoding the encoded XTA trim recovers it for every code the wire
/// mask leaves unchanged.
pub proof fn lemma_xta_trim_roundtrip(v: XtaTrim)
    requires
        v.wf(),
    ensures
        XtaTrim::spec_from_bytes(v.spec_to_bytes()) == v,
{
}

/// XTB trim register (address 0x0912).
///
/// Crystal load capacitance on the XTB pin, with the same coding as
/// the XTA trim; leave XTB unconnected when a TCXO is used.
#[derive(Debug, Clone, Copy, PartialEq, Eq, Structural)]
pub struct XtbTrim {
    /// Capacitance trim code; the cold-start default is 0x05 (13.6 pF).
    pub value: u8,
}

impl XtbTrim {
    /// The register address.
    pub fn id() -> (r: u16)
        ensures
            r == 0x0912,
    {
        0x0912
    }

    /// Only trim codes unchanged by the 0x2F wire mask survive a round
    /// trip.
    pub open spec fn wf(self) -> bool {
        self.value & 0x2F == self.value
    }

    /// One byte holding the trim code masked to 0x2F.
    pub open spec fn spec_to_bytes(self) -> Seq<u8> {
        seq![self.value & 0x2F]
    }

    /// The trim code read back from one byte, masked to 0x2F.
    pub open spec fn spec_from_bytes(bytes: Seq<u8>) -> XtbTrim
        recommends
            bytes.len() == 1,
    {
        XtbTrim { value: bytes[0] & 0x2F }
    }

    pub fn to_bytes(self) -> (r: [u8; 1])
        ensures
            r@ == self.spec_to_bytes(),
    {
        let r = [self.value & 0x2F];
        proof {
            assert(r@ =~= self.spec_to_bytes());
        }
        r
    }

    pub fn from_bytes(bytes: [u8; 1]) -> (r: XtbTrim)
        ensures
            r == XtbTrim::spec_from_bytes(bytes@),
    {
        XtbTrim { value: bytes[0] & 0x2F }
    }
}

impl Default for XtbTrim {
    /// The cold-start default trim.
    fn default() -> (r: Self)
        ensures
            r == (XtbTrim { value: 0x05 }),
    {
        XtbTrim { value: 0x05 }
    }
}

/// Decoding the encoded XTB trim recovers it for every code the wire
/// mask leaves unchanged.
pub proof fn lemma_xtb_trim_roundtrip(v: XtbTrim)
    requires
        v.wf(),
    ensures
        XtbTrim::spec_from_bytes(v.spec_to_bytes()) == v,
{
}

/// Event mask register (address 0x0944).
///
/// Masks which events raise interrupts; part of the workaround for the
/// implicit-header timeout behaviour.
#[derive(Debug, Clone, Copy, PartialEq, Eq, Structural)]
pub struct EventMask {
    /// Event mask bits: a set bit lets that event raise an interrupt.
    pub mask: u8,
}

impl EventMask {
    /// The register address.
    pub fn id() -> (r: u16)
        ensures
            r == 0x0944,
    {
        0x0944
    }

    /// The single mask byte.
    pub open spec fn spec_to_bytes(self) -> Seq<u8> {
        seq![self.mask]
    }

    /// The mask read back from one byte.
    pub open spec fn spec_from_bytes(bytes: Seq<u8>) -> EventMask
        recommends
            bytes.len() == 1,
    {
        EventMask { mask: bytes[0] }
    }

    pub fn to_bytes(self) -> (r: [u8; 1])
        ensures
            r@ == self.spec_to_bytes(),
    {
        let r = [self.mask];
        proof {
            assert(r@ =~= self.spec_to_bytes());
        }
        r
    }

    pub fn from_bytes(bytes: [u8; 1]) -> (r: EventMask)
        ensures
            r == EventMask::spec_from_bytes(bytes@),
    {
        EventMask { mask: bytes[0] }
    }
}

impl Default for EventMask {
    /// All events masked.
    fn default() -> (r: Self)
        ensures
            r == (EventMask { mask: 0 }),
    {
        EventMask { mask: 0 }
    }
}

/// Decoding the encoded event mask recovers it.
pub proof fn lemma_event_mask_roundtrip(v: EventMask)
    ensures
        EventMask::spec_from_bytes(v.spec_to_bytes()) == v,
{
}

} // verus!
