//! The decisions of the detection loop: which state it is in, when a death
//! is acted on, what it announces, and how long it waits.
use vstd::prelude::*;

verus! {

/// What the detection loop is doing.
#[derive(Clone, Copy, Debug, PartialEq, Eq, Structural)]
pub enum ActionOCR {
    SearchingDeath,
    SearchingBossName,
    EndingAction,
}

/// The state shown to the user.
#[derive(Clone, Copy, Debug, PartialEq, Eq, Structural)]
pub enum StatusOCR {
    Starting,
    Started(ActionOCR),
    Stopped,
}

/// What the detection loop announces.
#[derive(Clone, Debug)]
pub enum OcrMessage {
    ActivateOCR(bool),
    ChangeActionOCR(StatusOCR),
    BossesFoundOCR(Vec<String>),
    DeathDetected,
}

/// Milliseconds between two deaths that are both acted on.
pub const DEATH_COOLDOWN_MS: u64 = 5000;

/// Milliseconds that one ordinary iteration of the loop takes at least.
pub const SCAN_INTERVAL_MS: u64 = 500;

/// Milliseconds that an iteration which acted on a death takes at least.
pub const AFTER_DEATH_INTERVAL_MS: u64 = 10000;

/// Milliseconds to wait after the recognition engine failed to start.
pub const ENGINE_FAILURE_BACKOFF_MS: u64 = 5000;

/// The state that the loop carries from one iteration to the next.
#[derive(Clone, Copy, Debug, PartialEq, Eq, Structural)]
pub struct DetectorState {
    pub action: ActionOCR,
    /// When the last death that was acted on finished, if one was.
    pub last_detection_ms: Option<u64>,
}

/// A death read at `now` is acted on: none was before, or the cooldown has
/// run out since the last one.
pub open spec fn death_allowed(s: DetectorState, now: u64) -> bool {
    match s.last_detection_ms {
        None => true,
        Some(t) => now >= t && now - t >= DEATH_COOLDOWN_MS,
    }
}

/// The state after a death read at `now`.
pub open spec fn after_death(s: DetectorState, now: u64) -> DetectorState {
    if death_allowed(s, now) {
        DetectorState { action: ActionOCR::SearchingBossName, ..s }
    } else {
        s
    }
}

/// The state after the boss scan that a death started ended at `now`.
pub open spec fn after_scan(s: DetectorState, now: u64) -> DetectorState {
    DetectorState { action: ActionOCR::EndingAction, last_detection_ms: Some(now) }
}

/// The state at the start of an iteration.
pub open spec fn at_iteration_start(s: DetectorState) -> DetectorState {
    if s.action == ActionOCR::EndingAction {
        DetectorState { action: ActionOCR::SearchingDeath, ..s }
    } else {
        s
    }
}

/// The message is a death announcement.
pub open spec fn is_death_message(m: OcrMessage) -> bool {
    m is DeathDetected
}

impl DetectorState {
    /// Searching for a death, with none seen yet.
    pub fn new() -> (r: DetectorState)
        ensures
            r.action == ActionOCR::SearchingDeath,
            r.last_detection_ms is None,
    {
        DetectorState { action: ActionOCR::SearchingDeath, last_detection_ms: None }
    }

    /// Starts an iteration: an ended action goes back to searching for a
    /// death, and that change is announced.
    pub fn start_iteration(&mut self) -> (r: Option<OcrMessage>)
        ensures
            *final(self) == at_iteration_start(*old(self)),
            old(self).action == ActionOCR::EndingAction ==> r matches Some(
                OcrMessage::ChangeActionOCR(StatusOCR::Started(ActionOCR::SearchingDeath)),
            ),
            old(self).action != ActionOCR::EndingAction ==> r is None,
    {
        if self.action == ActionOCR::EndingAction {
            self.action = ActionOCR::SearchingDeath;
            Some(OcrMessage::ChangeActionOCR(StatusOCR::Started(ActionOCR::SearchingDeath)))
        } else {
            None
        }
    }

    /// A death was read at `now`. When it is acted on, the loop moves to
    /// searching for the boss name and announces that change, then the
    /// death; otherwise it announces nothing.
    pub fn register_death(&mut self, now: u64) -> (r: Vec<OcrMessage>)
        ensures
            *final(self) == after_death(*old(self), now),
            death_allowed(*old(self), now) ==> r@.len() == 2,
            death_allowed(*old(self), now) ==> (r@[0] matches OcrMessage::ChangeActionOCR(
                StatusOCR::Started(ActionOCR::SearchingBossName),
            )),
            death_allowed(*old(self), now) ==> r@[1] is DeathDetected,
            !death_allowed(*old(self), now) ==> r@.len() == 0,
    {
        let allowed = match self.last_detection_ms {
            None => true,
            Some(t) => now >= t && now - t >= DEATH_COOLDOWN_MS,
        };
        if allowed {
            self.action = ActionOCR::SearchingBossName;
            let mut r: Vec<OcrMessage> = Vec::new();
            r.push(OcrMessage::ChangeActionOCR(StatusOCR::Started(ActionOCR::SearchingBossName)));
            r.push(OcrMessage::DeathDetected);
            r
        } else {
            Vec::new()
        }
    }

    /// The boss scan ended at `now` with `names`: they are announced, then
    /// the end of the action, and the cooldown starts from `now`.
    pub fn finish_boss_scan(&mut self, names: Vec<String>, now: u64) -> (r: Vec<OcrMessage>)
        ensures
            *final(self) == after_scan(*old(self), now),
            r@.len() == 2,
            (r@[0] matches OcrMessage::BossesFoundOCR(v) && v@ == names@),
            r@[1] matches OcrMessage::ChangeActionOCR(StatusOCR::Started(ActionOCR::EndingAction)),
    {
        self.action = ActionOCR::EndingAction;
        self.last_detection_ms = Some(now);
        let mut r: Vec<OcrMessage> = Vec::new();
        r.push(OcrMessage::BossesFoundOCR(names));
        r.push(OcrMessage::ChangeActionOCR(StatusOCR::Started(ActionOCR::EndingAction)));
        r
    }
}

/// How long to sleep once an iteration took `elapsed_ms`: the rest of its
/// interval, or nothing when it overran.
pub fn pacing_delay_ms(elapsed_ms: u64, acted_on_death: bool) -> (r: u64)
    ensures
        ({
            let interval = if acted_on_death { AFTER_DEATH_INTERVAL_MS } else { SCAN_INTERVAL_MS };
            r == if elapsed_ms < interval { interval - elapsed_ms } else { 0 }
        }),
{
    let interval = if acted_on_death { AFTER_DEATH_INTERVAL_MS } else { SCAN_INTERVAL_MS };
    if elapsed_ms < interval {
        interval - elapsed_ms
    } else {
        0
    }
}

/// Once a death has been acted on and its boss scan ended at `done`, a second
/// death read before the cooldown has run out is not acted on: it changes
/// nothing and announces nothing.
pub proof fn lemma_cooldown_single_detection(s: DetectorState, first: u64, done: u64, second: u64)
    requires
        death_allowed(s, first),
        done <= second,
        second < done + DEATH_COOLDOWN_MS,
    ensures
        ({
            let scanned = after_scan(after_death(s, first), done);
            &&& !death_allowed(scanned, second)
            &&& after_death(scanned, second) == scanned
        }),
{
}

} // verus!
