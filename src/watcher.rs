//! The change detector: one slot holding the last damage seen for the
//! player's car, and the decision, report by report, whether to alert.

use vstd::prelude::*;

use crate::damage::{
    compare_fields_we_care_about, lemma_repair_is_a_change, repaired_somewhere, same_tracked,
    CarDamage,
};
use crate::packet::{player_damage, DecodeError, PacketBody, TelemetryPacket};

verus! {

/// Why a datagram was discarded without touching the watcher's state.
#[derive(Clone, Copy, Debug, PartialEq, Eq)]
pub enum WatchError {
    /// The datagram did not decode.
    Decode,
    /// The player's car index lies outside the damage report.
    IndexOutOfRange,
}

/// The alert owed for `current` when `last` was the previous snapshot: none
/// for the first one, none when the tracked fields agree, else `current`.
pub open spec fn alert_for(last: Option<CarDamage>, current: CarDamage) -> Option<CarDamage> {
    match last {
        None => None,
        Some(known) => if same_tracked(known, current) {
            None
        } else {
            Some(current)
        },
    }
}

/// The slot after `reports` were observed, starting from `last`.
pub open spec fn last_after(last: Option<CarDamage>, reports: Seq<CarDamage>) -> Option<
    CarDamage,
> {
    if reports.len() == 0 {
        last
    } else {
        Some(reports.last())
    }
}

/// The alerts, one entry per report, from observing `reports` in order
/// starting from `last`.
pub open spec fn alerts(last: Option<CarDamage>, reports: Seq<CarDamage>) -> Seq<
    Option<CarDamage>,
>
    decreases reports.len(),
{
    if reports.len() == 0 {
        Seq::empty()
    } else {
        let before = reports.drop_last();
        alerts(last, before).push(alert_for(last_after(last, before), reports.last()))
    }
}

/// Holds the last damage snapshot observed for the player's car.
#[derive(Clone, Debug)]
pub struct WatcherState {
    pub last_known: Option<CarDamage>,
}

impl WatcherState {
    /// A watcher that has seen nothing yet.
    pub fn new() -> (r: WatcherState)
        ensures
            r.last_known is None,
    {
        WatcherState { last_known: None }
    }

    /// Observes the player's own damage record: stores it, and returns it
    /// when it differs in a tracked field from the previous one.
    pub fn observe_damage(&mut self, current: CarDamage) -> (r: Option<CarDamage>)
        ensures
            r == alert_for(old(self).last_known, current),
            final(self).last_known == Some(current),
    {
        let r = match &self.last_known {
            None => None,
            Some(known) => if compare_fields_we_care_about(known, &current) {
                None
            } else {
                Some(current)
            },
        };
        self.last_known = Some(current);
        r
    }

    /// Observes one decoded packet. A packet of another kind is ignored; a
    /// damage report whose player index is out of range is refused; else the
    /// player's record is observed as by `observe_damage`.
    pub fn observe(&mut self, packet: &TelemetryPacket) -> (r: Result<
        Option<CarDamage>,
        WatchError,
    >)
        ensures
            player_damage(*packet) is None ==> r == Ok::<Option<CarDamage>, WatchError>(None)
                && final(self).last_known == old(self).last_known,
            player_damage(*packet) == Some(None::<CarDamage>) ==> r == Err::<
                Option<CarDamage>,
                WatchError,
            >(WatchError::IndexOutOfRange) && final(self).last_known == old(
                self,
            ).last_known,
            forall|d: CarDamage|
                player_damage(*packet) == Some(Some(d)) ==> r == Ok::<
                    Option<CarDamage>,
                    WatchError,
                >(alert_for(old(self).last_known, d)) && final(self).last_known == Some(d),
    {
        match &packet.body {
            PacketBody::Other(_) => Ok(None),
            PacketBody::CarDamageReport(damages) => {
                let idx = packet.player_car_index as usize;
                if idx < damages.len() {
                    Ok(self.observe_damage(damages[idx]))
                } else {
                    Err(WatchError::IndexOutOfRange)
                }
            },
        }
    }

    /// One step of the receive loop: a datagram that did not decode is
    /// refused, a decoded one is observed.
    pub fn process(&mut self, decoded: Result<TelemetryPacket, DecodeError>) -> (r: Result<
        Option<CarDamage>,
        WatchError,
    >)
        ensures
            decoded is Err ==> r == Err::<Option<CarDamage>, WatchError>(WatchError::Decode)
                && final(self).last_known == old(self).last_known,
            decoded is Ok ==> ({
                let p = decoded->Ok_0;
                &&& player_damage(p) is None ==> r == Ok::<Option<CarDamage>, WatchError>(None)
                    && final(self).last_known == old(self).last_known
                &&& player_damage(p) == Some(None::<CarDamage>) ==> r == Err::<
                    Option<CarDamage>,
                    WatchError,
                >(WatchError::IndexOutOfRange) && final(self).last_known == old(
                    self,
                ).last_known
                &&& forall|d: CarDamage|
                    player_damage(p) == Some(Some(d)) ==> r == Ok::<
                        Option<CarDamage>,
                        WatchError,
                    >(alert_for(old(self).last_known, d)) && final(self).last_known == Some(d)
            }),
    {
        match decoded {
            Err(_) => Err(WatchError::Decode),
            Ok(packet) => self.observe(&packet),
        }
    }

    /// Observes a run of the player's damage records in order, returning the
    /// alert decision for each.
    pub fn observe_all(&mut self, reports: &Vec<CarDamage>) -> (r: Vec<Option<CarDamage>>)
        ensures
            r@ == alerts(old(self).last_known, reports@),
            final(self).last_known == last_after(old(self).last_known, reports@),
    {
        let ghost start = self.last_known;
        let mut out: Vec<Option<CarDamage>> = Vec::new();
        let mut i: usize = 0;
        while i < reports.len()
            invariant
                i <= reports.len(),
                out@ == alerts(start, reports@.take(i as int)),
                self.last_known == last_after(start, reports@.take(i as int)),
            decreases reports.len() - i,
        {
            let a = self.observe_damage(reports[i]);
            proof {
                let next = reports@.take(i as int + 1);
                assert(next.drop_last() =~= reports@.take(i as int));
                assert(next.last() == reports@[i as int]);
            }
            out.push(a);
            i = i + 1;
        }
        assert(reports@.take(reports.len() as int) =~= reports@);
        out
    }
}

/// Observing one more report appends exactly one decision, taken against the
/// snapshot left by the earlier reports.
pub proof fn lemma_alerts_push(last: Option<CarDamage>, reports: Seq<CarDamage>, d: CarDamage)
    ensures
        alerts(last, reports.push(d)) == alerts(last, reports).push(
            alert_for(last_after(last, reports), d),
        ),
        last_after(last, reports.push(d)) == Some(d),
{
    assert(reports.push(d).drop_last() =~= reports);
}

/// The first damage report ever observed raises no alert, and becomes the
/// stored snapshot.
pub proof fn lemma_first_report_silent(d: CarDamage)
    ensures
        alerts(None, seq![d]) == seq![None::<CarDamage>],
        last_after(None, seq![d]) == Some(d),
{
    lemma_alerts_push(None, Seq::empty(), d);
    assert(Seq::<CarDamage>::empty().push(d) =~= seq![d]);
    assert(Seq::<Option<CarDamage>>::empty().push(None) =~= seq![None::<CarDamage>]);
}

/// Two reports in a row after a tracked change: the first stays silent and
/// the second is announced.
proof fn lemma_pair(d1: CarDamage, d2: CarDamage)
    ensures
        alerts(None, seq![d1, d2]) == seq![
            None::<CarDamage>,
            if same_tracked(d1, d2) { None } else { Some(d2) },
        ],
        last_after(None, seq![d1, d2]) == Some(d2),
{
    lemma_first_report_silent(d1);
    lemma_alerts_push(None, seq![d1], d2);
    assert(seq![d1].push(d2) =~= seq![d1, d2]);
    assert(seq![None::<CarDamage>].push(alert_for(Some(d1), d2)) =~= seq![
        None::<CarDamage>,
        if same_tracked(d1, d2) { None } else { Some(d2) },
    ]);
}

/// The same report twice raises no alert.
pub proof fn lemma_repeat_is_silent(d: CarDamage)
    ensures
        alerts(None, seq![d, d]) == seq![None::<CarDamage>, None],
{
    lemma_pair(d, d);
}

/// A report that differs from the previous one in any tracked field is
/// announced.
pub proof fn lemma_change_alerts(d1: CarDamage, d2: CarDamage)
    requires
        !same_tracked(d1, d2),
    ensures
        alerts(None, seq![d1, d2]) == seq![None, Some(d2)],
{
    lemma_pair(d1, d2);
}

/// Reports that differ only in untracked fields raise no alert.
pub proof fn lemma_untracked_change_is_silent(d1: CarDamage, d2: CarDamage)
    requires
        same_tracked(d1, d2),
    ensures
        alerts(None, seq![d1, d2]) == seq![None::<CarDamage>, None],
{
    lemma_pair(d1, d2);
}

/// A change that then persists is announced once, when it first appears.
pub proof fn lemma_change_alerts_once(d1: CarDamage, d2: CarDamage)
    requires
        !same_tracked(d1, d2),
    ensures
        alerts(None, seq![d1, d2, d2, d2]) == seq![None, Some(d2), None, None],
{
    lemma_pair(d1, d2);
    lemma_alerts_push(None, seq![d1, d2], d2);
    assert(seq![d1, d2].push(d2) =~= seq![d1, d2, d2]);
    lemma_alerts_push(None, seq![d1, d2, d2], d2);
    assert(seq![d1, d2, d2].push(d2) =~= seq![d1, d2, d2, d2]);
    assert(seq![None, Some(d2)].push(None).push(None) =~= seq![None, Some(d2), None, None]);
}

/// A report in which some tracked damage went down, as after a repair, is
/// announced too.
pub proof fn lemma_repair_alerts(d1: CarDamage, d2: CarDamage)
    requires
        repaired_somewhere(d1, d2),
    ensures
        alerts(None, seq![d1, d2]) == seq![None, Some(d2)],
{
    lemma_repair_is_a_change(d1, d2);
    lemma_pair(d1, d2);
}

} // verus!
