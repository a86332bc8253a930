use vstd::prelude::*;
use vstd::string::*;

verus! {

/// Name of the file written for an input whose file stem is `stem`: every
/// result is saved as PNG, so inputs that share a stem share an output name
/// and the later one overwrites the earlier.
pub fn output_file_name(stem: &str) -> (r: String)
    ensures
        r@ == stem@ + ".png"@,
{
    let mut name = stem.to_owned();
    name.append(".png");
    name
}

/// What is missing before a run can start.
#[derive(Clone, Copy, Debug, PartialEq, Eq)]
pub enum ConfigError {
    MissingInput,
    MissingOutput,
    MissingWatermark,
}

/// A run may start once an input, an output directory and a watermark are
/// chosen; otherwise the first of them that is missing is reported.
pub fn check_ready(has_input: bool, has_output: bool, has_watermark: bool) -> (r: Result<
    (),
    ConfigError,
>)
    ensures
        r is Ok <==> has_input && has_output && has_watermark,
        !has_input ==> r == Err::<(), ConfigError>(ConfigError::MissingInput),
        has_input && !has_output ==> r == Err::<(), ConfigError>(ConfigError::MissingOutput),
        has_input && has_output && !has_watermark ==> r == Err::<(), ConfigError>(
            ConfigError::MissingWatermark,
        ),
{
    if !has_input {
        Err(ConfigError::MissingInput)
    } else if !has_output {
        Err(ConfigError::MissingOutput)
    } else if !has_watermark {
        Err(ConfigError::MissingWatermark)
    } else {
        Ok(())
    }
}

/// Tally of a batch run: files discovered, and how many of them were
/// written or failed so far.
#[derive(Clone, Copy, Debug, PartialEq, Eq)]
pub struct BatchReport {
    pub total: usize,
    pub succeeded: usize,
    pub failed: usize,
}

impl BatchReport {
    /// No more outcomes are recorded than files were discovered.
    pub open spec fn wf(&self) -> bool {
        self.succeeded + self.failed <= self.total
    }

    /// A report for `total` files, none processed yet.
    pub fn new(total: usize) -> (r: BatchReport)
        ensures
            r.wf(),
            r.total == total,
            r.succeeded == 0,
            r.failed == 0,
    {
        BatchReport { total, succeeded: 0, failed: 0 }
    }

    /// Records the outcome of one more file.
    pub fn record(&mut self, ok: bool)
        requires
            old(self).wf(),
            old(self).succeeded + old(self).failed < old(self).total,
        ensures
            final(self).wf(),
            final(self).total == old(self).total,
            final(self).succeeded == old(self).succeeded + if ok { 1int } else { 0int },
            final(self).failed == old(self).failed + if ok { 0int } else { 1int },
    {
        if ok {
            self.succeeded = self.succeeded + 1;
        } else {
            self.failed = self.failed + 1;
        }
    }

    /// Whether every discovered file has an outcome.
    pub fn is_complete(&self) -> (r: bool)
        requires
            self.wf(),
        ensures
            r == (self.succeeded + self.failed == self.total),
    {
        self.succeeded + self.failed == self.total
    }
}

/// Number of `true` entries of `s`.
pub open spec fn count_true(s: Seq<bool>) -> nat
    decreases s.len(),
{
    if s.len() == 0 {
        0
    } else {
        count_true(s.drop_last()) + if s.last() {
            1nat
        } else {
            0nat
        }
    }
}

/// Tallies the outcomes of a whole run, one per discovered file.
pub fn tally(outcomes: &Vec<bool>) -> (r: BatchReport)
    ensures
        r.wf(),
        r.total == outcomes@.len(),
        r.succeeded == count_true(outcomes@),
        r.succeeded + r.failed == r.total,
{
    let mut report = BatchReport::new(outcomes.len());
    let mut i: usize = 0;
    while i < outcomes.len()
        invariant
            i <= outcomes@.len(),
            report.wf(),
            report.total == outcomes@.len(),
            report.succeeded + report.failed == i,
            report.succeeded == count_true(outcomes@.subrange(0, i as int)),
        decreases outcomes@.len() - i,
    {
        proof {
            let s = outcomes@.subrange(0, i as int + 1);
            assert(s.drop_last() =~= outcomes@.subrange(0, i as int));
        }
        report.record(outcomes[i]);
        i = i + 1;
    }
    assert(outcomes@.subrange(0, i as int) =~= outcomes@);
    report
}

} // verus!
