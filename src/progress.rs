use vstd::prelude::*;

verus! {

/// Bar template while the byte total is known.
pub const DEFINITE_BAR_STYLE: &'static str = "[{elapsed_precise}] {binary_bytes_per_sec} {bar} {binary_bytes}/{binary_total_bytes} ({eta})";

/// Bar template while the byte total is unknown.
pub const INDEFINITE_BAR_STYLE: &'static str = "[{elapsed_precise}] {binary_bytes_per_sec} ({eta})";

/// Spinner template while the encryption key is derived.
pub const ENC_SPINNER_STYLE: &'static str = "{spinner} deriving encryption key";

/// Spinner template while the decryption key is derived.
pub const DEC_SPINNER_STYLE: &'static str = "{spinner} deriving decryption key";

/// What the progress display shows.
#[derive(Debug, Clone, Copy, PartialEq, Eq, Structural)]
pub enum ProgressView {
    /// Nothing at all: not interactive, or silence was asked for.
    Hidden,
    /// An animation while the key is derived; it follows no byte count.
    Spinner,
    /// A bar over a known total.
    DeterminateBar,
    /// A byte counter without a total.
    IndeterminateBar,
}

/// Progress of one transfer: what is shown, the total if known, and the
/// bytes reported so far.
#[derive(Debug, Clone, Copy, PartialEq, Eq, Structural)]
pub struct Progress {
    pub view: ProgressView,
    pub total: Option<u64>,
    pub position: u64,
}

/// One thing that can happen to a progress display.
#[derive(Debug, Clone, Copy, PartialEq, Eq, Structural)]
pub enum ProgressOp {
    BeginTransfer(Option<u64>),
    Report(u64),
}

/// Progress is shown only to an interactive user who did not ask for silence.
pub fn show_progress(interactive: bool, silent: bool) -> (r: bool)
    ensures
        r == (interactive && !silent),
{
    interactive && !silent
}

impl Progress {
    /// A hidden display stays hidden; otherwise the view is a bar and its
    /// total agrees with it.
    pub open spec fn wf(&self) -> bool {
        match self.view {
            ProgressView::Hidden => true,
            ProgressView::Spinner => self.total is None,
            ProgressView::DeterminateBar => self.total is Some,
            ProgressView::IndeterminateBar => self.total is None,
        }
    }

    pub open spec fn spec_begin_transfer(self, total: Option<u64>) -> Progress {
        Progress {
            view: match self.view {
                ProgressView::Hidden => ProgressView::Hidden,
                _ => if total is Some {
                    ProgressView::DeterminateBar
                } else {
                    ProgressView::IndeterminateBar
                },
            },
            total,
            position: 0,
        }
    }

    pub open spec fn spec_report(self, n: u64) -> Progress {
        Progress {
            position: if self.position + n > u64::MAX {
                u64::MAX
            } else {
                (self.position + n) as u64
            },
            ..self
        }
    }

    pub open spec fn spec_apply(self, op: ProgressOp) -> Progress {
        match op {
            ProgressOp::BeginTransfer(t) => self.spec_begin_transfer(t),
            ProgressOp::Report(n) => self.spec_report(n),
        }
    }

    /// The display after a sequence of operations.
    pub open spec fn spec_apply_all(self, ops: Seq<ProgressOp>) -> Progress
        decreases ops.len(),
    {
        if ops.len() == 0 {
            self
        } else {
            self.spec_apply(ops[0]).spec_apply_all(ops.drop_first())
        }
    }

    /// A fresh display: the spinner when progress is to be shown, else hidden.
    pub fn new(show: bool) -> (r: Progress)
        ensures
            r.wf(),
            r.view == (if show { ProgressView::Spinner } else { ProgressView::Hidden }),
            r.total is None,
            r.position == 0,
    {
        Progress {
            view: if show { ProgressView::Spinner } else { ProgressView::Hidden },
            total: None,
            position: 0,
        }
    }

    /// Byte transfer begins: the spinner gives way to a bar over `total` if it
    /// is known, else to a counter; the count starts again from zero.
    pub fn begin_transfer(&mut self, total: Option<u64>)
        ensures
            *final(self) == old(self).spec_begin_transfer(total),
            final(self).wf(),
    {
        let view = match self.view {
            ProgressView::Hidden => ProgressView::Hidden,
            _ => if total.is_some() {
                ProgressView::DeterminateBar
            } else {
                ProgressView::IndeterminateBar
            },
        };
        *self = Progress { view, total, position: 0 };
    }

    /// Counts `n` more bytes. Constant time, never fails: the count stops at
    /// the largest `u64`.
    pub fn report(&mut self, n: u64)
        ensures
            *final(self) == old(self).spec_report(n),
            old(self).wf() ==> final(self).wf(),
    {
        self.position = self.position.saturating_add(n);
    }

    /// Applies one operation.
    pub fn apply(&mut self, op: ProgressOp)
        ensures
            *final(self) == old(self).spec_apply(op),
            old(self).wf() ==> final(self).wf(),
    {
        match op {
            ProgressOp::BeginTransfer(t) => self.begin_transfer(t),
            ProgressOp::Report(n) => self.report(n),
        }
    }
}

/// A display that starts hidden stays hidden, whatever happens to it: with
/// silence asked for, nothing is ever rendered.
pub proof fn lemma_hidden_stays_hidden(p: Progress, ops: Seq<ProgressOp>)
    requires
        p.view == ProgressView::Hidden,
    ensures
        p.spec_apply_all(ops).view == ProgressView::Hidden,
    decreases ops.len(),
{
    if ops.len() > 0 {
        lemma_hidden_stays_hidden(p.spec_apply(ops[0]), ops.drop_first());
    }
}

/// Every sequence of operations keeps a display well formed.
pub proof fn lemma_apply_all_wf(p: Progress, ops: Seq<ProgressOp>)
    requires
        p.wf(),
    ensures
        p.spec_apply_all(ops).wf(),
    decreases ops.len(),
{
    if ops.len() > 0 {
        lemma_apply_all_wf(p.spec_apply(ops[0]), ops.drop_first());
    }
}

} // verus!
