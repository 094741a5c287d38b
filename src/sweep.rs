use vstd::prelude::*;
use std::ops::Range;
use crate::config::{Band, Stage, TestBand, band_name};
use crate::protocol::SessionError;
use crate::text::{dec, dec2, push_decimal, push_decimal2};

verus! {

/// The (fem, lna, vga) setting of the sweep of `stage` at value `v`: the other two
/// stages are held at zero.
pub open spec fn gains_spec(stage: Stage, v: u8) -> (u8, u8, u8) {
    match stage {
        Stage::Fem => (v, 0, 0),
        Stage::Lna => (0, v, 0),
        Stage::Vga => (0, 0, v),
    }
}

/// The gain setting of one sweep iteration.
pub fn iteration_gains(stage: Stage, v: u8) -> (r: (u8, u8, u8))
    ensures
        r == gains_spec(stage, v),
{
    match stage {
        Stage::Fem => (v, 0, 0),
        Stage::Lna => (0, v, 0),
        Stage::Vga => (0, 0, v),
    }
}

/// The name of the capture of one iteration: `{band}_iq_{fem}_{lna}_{vga}.txt`,
/// with vga two digits wide and the stages not swept written as zeros.
pub open spec fn capture_name_spec(band: Band, stage: Stage, v: u8) -> Seq<char> {
    match stage {
        Stage::Fem => band_name(band) + "_iq_"@ + dec(v as nat) + "_0_00.txt"@,
        Stage::Lna => band_name(band) + "_iq_0_"@ + dec(v as nat) + "_00.txt"@,
        Stage::Vga => band_name(band) + "_iq_0_0_"@ + dec2(v as nat) + ".txt"@,
    }
}

/// The file name of the capture of one iteration.
pub fn capture_name(band: Band, stage: Stage, v: u8) -> (r: String)
    ensures
        r@ == capture_name_spec(band, stage, v),
{
    let mut s = band.name();
    match stage {
        Stage::Fem => {
            s.append("_iq_");
            push_decimal(&mut s, v);
            s.append("_0_00.txt");
        },
        Stage::Lna => {
            s.append("_iq_0_");
            push_decimal(&mut s, v);
            s.append("_00.txt");
        },
        Stage::Vga => {
            s.append("_iq_0_0_");
            push_decimal2(&mut s, v);
            s.append(".txt");
        },
    }
    s
}

/// The steps of one sweep iteration, in order.
#[derive(Debug, Clone, Copy, PartialEq, Eq, Structural)]
pub enum Phase {
    /// Write the gain registers.
    SetGain,
    /// Capture I/Q samples on the board.
    Capture,
    /// Copy the capture to the local disk.
    Transfer,
    /// Delete the captures on the board.
    Cleanup,
    /// The iteration is over and succeeded.
    Done,
    /// The iteration was abandoned on this error.
    Failed(SessionError),
}

/// The phase that follows `phase` when its step ended with `result`: `Ok(flag)`
/// when the board answered, with `flag` false when it flagged an error.
pub open spec fn next_phase_spec(phase: Phase, result: Result<bool, SessionError>) -> Phase {
    match result {
        Err(e) => Phase::Failed(e),
        Ok(ok) => match phase {
            Phase::SetGain => Phase::Capture,
            Phase::Capture => if ok {
                Phase::Transfer
            } else {
                Phase::Failed(SessionError::Device)
            },
            Phase::Transfer => if ok {
                Phase::Cleanup
            } else {
                Phase::Failed(SessionError::Device)
            },
            Phase::Cleanup => Phase::Done,
            _ => phase,
        },
    }
}

/// Moves an iteration on after a step. Any error abandons the iteration; a
/// capture the board did not make is not copied.
pub fn next_phase(phase: Phase, result: Result<bool, SessionError>) -> (r: Phase)
    ensures
        r == next_phase_spec(phase, result),
{
    match result {
        Err(e) => Phase::Failed(e),
        Ok(ok) => match phase {
            Phase::SetGain => Phase::Capture,
            Phase::Capture => if ok {
                Phase::Transfer
            } else {
                Phase::Failed(SessionError::Device)
            },
            Phase::Transfer => if ok {
                Phase::Cleanup
            } else {
                Phase::Failed(SessionError::Device)
            },
            Phase::Cleanup => Phase::Done,
            _ => phase,
        },
    }
}

/// What an iteration came to, once it is over.
pub fn phase_outcome(phase: Phase) -> (r: Option<Result<(), SessionError>>)
    ensures
        phase == Phase::Done ==> r == Some(Ok::<(), SessionError>(())),
        phase is Failed ==> r == Some(Err::<(), SessionError>(phase->Failed_0)),
        !(phase == Phase::Done || phase is Failed) ==> r is None,
{
    match phase {
        Phase::Done => Some(Ok(())),
        Phase::Failed(e) => Some(Err(e)),
        _ => None,
    }
}

/// Where a sweep stands: the next value, the end of the range, how many
/// iterations have run, and whether a fatal error stopped it.
pub struct SweepView {
    pub next: int,
    pub end: int,
    pub attempted: nat,
    pub aborted: bool,
}

pub open spec fn active(v: SweepView) -> bool {
    !v.aborted && v.next < v.end
}

/// A sweep after an iteration that ended with `outcome`.
pub open spec fn sweep_step(v: SweepView, outcome: Result<(), SessionError>) -> SweepView {
    SweepView {
        next: v.next + 1,
        end: v.end,
        attempted: v.attempted + 1,
        aborted: outcome is Err && outcome->Err_0.fatal_spec(),
    }
}

/// A sweep after iterations that end with `outcomes`, in order, for as long as
/// it goes on.
pub open spec fn sweep_run(v: SweepView, outcomes: Seq<Result<(), SessionError>>) -> SweepView
    decreases outcomes.len(),
{
    if outcomes.len() == 0 || !active(v) {
        v
    } else {
        sweep_run(sweep_step(v, outcomes[0]), outcomes.drop_first())
    }
}

/// The state of a sweep of one gain stage over a range of values on one band.
pub struct Sweep {
    band: Band,
    stage: Stage,
    next: u16,
    end: u16,
    attempted: u16,
    aborted: bool,
}

impl View for Sweep {
    type V = SweepView;

    closed spec fn view(&self) -> SweepView {
        SweepView {
            next: self.next as int,
            end: self.end as int,
            attempted: self.attempted as nat,
            aborted: self.aborted,
        }
    }
}

impl Sweep {
    pub closed spec fn band_spec(&self) -> Band {
        self.band
    }

    pub closed spec fn stage_spec(&self) -> Stage {
        self.stage
    }

    pub closed spec fn wf(&self) -> bool {
        &&& self.end <= 256
        &&& self.attempted <= self.next
        &&& self.attempted as int + (if self.next < self.end { self.end - self.next } else { 0 })
            <= 256
    }

    /// A sweep that has not started.
    pub fn new(test: &TestBand) -> (r: Sweep)
        ensures
            r.wf(),
            r.band_spec() == test.band(),
            r.stage_spec() == test.gain().stage(),
            r@.next == test.gain().range().start,
            r@.end == test.gain().range().end,
            r@.attempted == 0,
            !r@.aborted,
    {
        let range: Range<u8> = test.traverse();
        Sweep {
            band: test.get_band(),
            stage: test.get_gain_type().get_stage(),
            next: range.start as u16,
            end: range.end as u16,
            attempted: 0,
            aborted: false,
        }
    }

    /// A sweep of `stage` on `band` over every value from `lo` to `hi`, both
    /// included, that has not started.
    pub fn inclusive(band: Band, stage: Stage, lo: u8, hi: u8) -> (r: Sweep)
        ensures
            r.wf(),
            r.band_spec() == band,
            r.stage_spec() == stage,
            r@.next == lo,
            r@.end == hi + 1,
            r@.attempted == 0,
            !r@.aborted,
    {
        Sweep { band, stage, next: lo as u16, end: hi as u16 + 1, attempted: 0, aborted: false }
    }

    /// The band swept.
    pub fn band(&self) -> (r: Band)
        ensures
            r == self.band_spec(),
    {
        self.band
    }

    /// The stage swept.
    pub fn stage(&self) -> (r: Stage)
        ensures
            r == self.stage_spec(),
    {
        self.stage
    }

    /// The number of iterations run so far.
    pub fn attempted(&self) -> (r: u16)
        ensures
            r == self@.attempted,
    {
        self.attempted
    }

    /// The value of the next iteration, or `None` once the range is done or a
    /// fatal error stopped the sweep.
    pub fn current(&self) -> (r: Option<u8>)
        requires
            self.wf(),
        ensures
            r is Some <==> active(self@),
            r is Some ==> r->Some_0 == self@.next,
    {
        if !self.aborted && self.next < self.end {
            Some(self.next as u8)
        } else {
            None
        }
    }

    /// Takes note of how the current iteration ended and moves on to the next
    /// value, unless the error was fatal.
    pub fn finish(&mut self, outcome: Result<(), SessionError>)
        requires
            old(self).wf(),
            active(old(self)@),
        ensures
            final(self).wf(),
            final(self)@ == sweep_step(old(self)@, outcome),
            final(self).band_spec() == old(self).band_spec(),
            final(self).stage_spec() == old(self).stage_spec(),
    {
        self.next = self.next + 1;
        self.attempted = self.attempted + 1;
        self.aborted = match outcome {
            Err(e) => e.is_fatal(),
            Ok(_) => false,
        };
    }
}

/// A sweep whose iterations fail only in ways the session survives runs one
/// iteration for each value of its range, and then stops.
pub proof fn lemma_sweep_runs_every_value(v: SweepView, outcomes: Seq<Result<(), SessionError>>)
    requires
        !v.aborted,
        v.next <= v.end,
        outcomes.len() >= v.end - v.next,
        forall|i: int|
            0 <= i < outcomes.len() ==> !(#[trigger] outcomes[i] is Err && outcomes[i]->Err_0.fatal_spec()),
    ensures
        sweep_run(v, outcomes).attempted == v.attempted + (v.end - v.next),
        !active(sweep_run(v, outcomes)),
        !sweep_run(v, outcomes).aborted,
    decreases outcomes.len(),
{
    if v.next < v.end {
        let rest = outcomes.drop_first();
        assert forall|i: int|
            0 <= i < rest.len() implies !(#[trigger] rest[i] is Err && rest[i]->Err_0.fatal_spec()) by {
            assert(rest[i] == outcomes[i + 1]);
        }
        let _ = outcomes[0];
        lemma_sweep_runs_every_value(sweep_step(v, outcomes[0]), rest);
    }
}

/// A fatal error in the iteration at position `k` stops the sweep there: the
/// values after it are not run.
pub proof fn lemma_sweep_stops_on_fatal(
    v: SweepView,
    outcomes: Seq<Result<(), SessionError>>,
    k: int,
)
    requires
        !v.aborted,
        0 <= k < outcomes.len(),
        k < v.end - v.next,
        outcomes[k] is Err && outcomes[k]->Err_0.fatal_spec(),
        forall|i: int|
            0 <= i < k ==> !(#[trigger] outcomes[i] is Err && outcomes[i]->Err_0.fatal_spec()),
    ensures
        sweep_run(v, outcomes).attempted == v.attempted + k + 1,
        sweep_run(v, outcomes).aborted,
    decreases k,
{
    let rest = outcomes.drop_first();
    if k == 0 {
        let w = sweep_step(v, outcomes[0]);
        assert(sweep_run(v, outcomes) == sweep_run(w, rest));
        assert(sweep_run(w, rest) == w);
    } else {
        assert forall|i: int| 0 <= i < k - 1 implies !(#[trigger] rest[i] is Err
            && rest[i]->Err_0.fatal_spec()) by {
            assert(rest[i] == outcomes[i + 1]);
        }
        let _ = outcomes[0];
        assert(rest[k - 1] == outcomes[k]);
        assert(sweep_run(v, outcomes) == sweep_run(sweep_step(v, outcomes[0]), rest));
        lemma_sweep_stops_on_fatal(sweep_step(v, outcomes[0]), rest, k - 1);
    }
}

/// A sweep's values cannot be turned into a range.
#[derive(Debug, Clone, Copy, PartialEq, Eq, Structural)]
pub enum ConfigError {
    /// No value was given.
    EmptyRange,
}

/// The band named `name`, "HB" or "LB"; `None` for any other name.
pub fn parse_band(name: &String) -> (r: Option<Band>)
    ensures
        r == (if name@ == "HB"@ {
            Some(Band::HB)
        } else if name@ == "LB"@ {
            Some(Band::LB)
        } else {
            None
        }),
{
    if name.eq(&String::from_str("HB")) {
        Some(Band::HB)
    } else if name.eq(&String::from_str("LB")) {
        Some(Band::LB)
    } else {
        None
    }
}

/// The band named `name`: "HB" is the high band, any other name the low band.
pub fn band_from_name(name: &String) -> (r: Band)
    ensures
        r == (if name@ == "HB"@ {
            Band::HB
        } else {
            Band::LB
        }),
{
    let hb = String::from_str("HB");
    if name.eq(&hb) {
        Band::HB
    } else {
        Band::LB
    }
}

/// The stage named `name` ("Fem", "Lna" or "Vga"), if any.
pub fn stage_from_name(name: &String) -> (r: Option<Stage>)
    ensures
        r == (if name@ == "Fem"@ {
            Some(Stage::Fem)
        } else if name@ == "Lna"@ {
            Some(Stage::Lna)
        } else if name@ == "Vga"@ {
            Some(Stage::Vga)
        } else {
            None
        }),
{
    if name.eq(&String::from_str("Fem")) {
        Some(Stage::Fem)
    } else if name.eq(&String::from_str("Lna")) {
        Some(Stage::Lna)
    } else if name.eq(&String::from_str("Vga")) {
        Some(Stage::Vga)
    } else {
        None
    }
}

/// Whether `lo` is the smallest of `values`.
pub open spec fn is_min(values: Seq<u8>, lo: u8) -> bool {
    (exists|i: int| 0 <= i < values.len() && values[i] == lo) && forall|i: int|
        0 <= i < values.len() ==> lo <= #[trigger] values[i]
}

/// Whether `hi` is the largest of `values`.
pub open spec fn is_max(values: Seq<u8>, hi: u8) -> bool {
    (exists|i: int| 0 <= i < values.len() && values[i] == hi) && forall|i: int|
        0 <= i < values.len() ==> #[trigger] values[i] <= hi
}

/// The inclusive bounds `(lo, hi)` of the range a sweep over `values` runs
/// through: every integer from the smallest value to the largest, whether it was
/// given or not.
pub fn sweep_range(values: &Vec<u8>) -> (r: Result<(u8, u8), ConfigError>)
    ensures
        values@.len() == 0 <==> r is Err,
        r is Err ==> r->Err_0 == ConfigError::EmptyRange,
        r is Ok ==> is_min(values@, r->Ok_0.0) && is_max(values@, r->Ok_0.1),
{
    if values.len() == 0 {
        return Err(ConfigError::EmptyRange);
    }
    let mut lo = values[0];
    let mut hi = values[0];
    let mut k: usize = 1;
    assert(values@.subrange(0, 1)[0] == lo);
    while k < values.len()
        invariant
            1 <= k <= values@.len(),
            is_min(values@.subrange(0, k as int), lo),
            is_max(values@.subrange(0, k as int), hi),
        decreases values@.len() - k,
    {
        let v = values[k];
        proof {
            let pre = values@.subrange(0, k as int);
            let next = values@.subrange(0, k as int + 1);
            assert forall|i: int| 0 <= i < k implies next[i] == pre[i] by {}
            assert(next[k as int] == v);
        }
        if v < lo {
            lo = v;
        }
        if v > hi {
            hi = v;
        }
        proof {
            let pre = values@.subrange(0, k as int);
            let next = values@.subrange(0, k as int + 1);
            assert(forall|i: int| 0 <= i < k ==> next[i] == pre[i]);
            if lo == v {
                assert(next[k as int] == lo);
            } else {
                let i = choose|i: int| 0 <= i < pre.len() && pre[i] == lo;
                assert(next[i] == lo);
            }
            if hi == v {
                assert(next[k as int] == hi);
            } else {
                let i = choose|i: int| 0 <= i < pre.len() && pre[i] == hi;
                assert(next[i] == hi);
            }
            assert forall|i: int| 0 <= i < next.len() implies lo <= #[trigger] next[i] by {
                if i < k {
                    assert(lo <= pre[i]);
                }
            }
            assert forall|i: int| 0 <= i < next.len() implies #[trigger] next[i] <= hi by {
                if i < k {
                    assert(pre[i] <= hi);
                }
            }
        }
        k = k + 1;
    }
    assert(values@.subrange(0, values@.len() as int) =~= values@);
    Ok((lo, hi))
}

} // verus!
