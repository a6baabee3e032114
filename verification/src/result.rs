//! Results of evaluating conditions: one detailed row per condition, and an
//! overall verdict per matcher run.
use vstd::prelude::*;
use crate::condition::ConditionMode;
use crate::error::{MatchError, MatchErrorV};

verus! {

/// Result of evaluating a single condition.
#[derive(Debug, Clone)]
pub struct ConditionResult {
    /// Whether this condition passed.
    pub passed: bool,
    /// Description of what was checked.
    pub description: String,
    /// The actual value that was compared, rendered for display.
    pub actual_value: Option<String>,
    /// The expected value, rendered for display.
    pub expected_value: Option<String>,
    /// The embedded error, if evaluation could not resolve its subject.
    pub error: Option<MatchError>,
}

/// The spec-level shape of a `ConditionResult`.
pub ghost struct ConditionResultV {
    pub passed: bool,
    pub description: Seq<char>,
    pub actual_value: Option<Seq<char>>,
    pub expected_value: Option<Seq<char>>,
    pub error: Option<MatchErrorV>,
}

impl DeepView for ConditionResult {
    type V = ConditionResultV;

    open spec fn deep_view(&self) -> ConditionResultV {
        self.view()
    }
}

impl View for ConditionResult {
    type V = ConditionResultV;

    open spec fn view(&self) -> ConditionResultV {
        ConditionResultV {
            passed: self.passed,
            description: self.description@,
            actual_value: match self.actual_value {
                Some(ref s) => Some(s@),
                None => None,
            },
            expected_value: match self.expected_value {
                Some(ref s) => Some(s@),
                None => None,
            },
            error: match self.error {
                Some(ref e) => Some(e@),
                None => None,
            },
        }
    }
}

/// Result of a full match operation, with one row per condition.
#[derive(Debug, Clone)]
pub struct MatchResult {
    /// Whether the overall match succeeded.
    pub matched: bool,
    /// Individual results for each condition, in declaration order.
    pub condition_results: Vec<ConditionResult>,
    /// The matching mode used.
    pub mode: ConditionMode,
}

/// The spec-level shape of a `MatchResult`.
pub ghost struct MatchResultV {
    pub matched: bool,
    pub condition_results: Seq<ConditionResultV>,
    pub mode: ConditionMode,
}

impl View for MatchResult {
    type V = MatchResultV;

    open spec fn view(&self) -> MatchResultV {
        MatchResultV {
            matched: self.matched,
            condition_results: self.condition_results.deep_view(),
            mode: self.mode,
        }
    }
}

impl MatchResult {
    /// The overall verdict.
    pub fn is_match(&self) -> (r: bool)
        ensures
            r == self.matched,
    {
        self.matched
    }

    /// The rows whose condition passed, in order.
    pub fn passed_conditions(&self) -> (r: Vec<&ConditionResult>)
        ensures
            r.deep_view() == self.condition_results.deep_view().filter(
                |c: ConditionResultV| c.passed,
            ),
    {
        let mut out: Vec<&ConditionResult> = Vec::new();
        let mut i: usize = 0;
        proof {
            assert(self.condition_results.deep_view().take(0).filter(
                |c: ConditionResultV| c.passed,
            ) =~= Seq::<ConditionResultV>::empty());
            assert(out.deep_view() =~= Seq::<ConditionResultV>::empty());
        }
        while i < self.condition_results.len()
            invariant
                i <= self.condition_results.len(),
                out.deep_view() == self.condition_results.deep_view().take(i as int).filter(
                    |c: ConditionResultV| c.passed,
                ),

            decreases self.condition_results.len() - i,
        {
            proof {
                let pre = self.condition_results.deep_view().take(i as int);
                let post = self.condition_results.deep_view().take(i as int + 1);
                assert(post.drop_last() =~= pre);
                assert(post.last() == self.condition_results.deep_view()[i as int]);
                reveal_with_fuel(Seq::filter, 2);
                assert(post.filter(|c: ConditionResultV| c.passed) == if post.last().passed {
                    pre.filter(|c: ConditionResultV| c.passed).push(post.last())
                } else {
                    pre.filter(|c: ConditionResultV| c.passed)
                });
            }
            let row = &self.condition_results[i];
            if row.passed {
                out.push(row);
                proof {
                    assert(out.deep_view() =~= self.condition_results.deep_view().take(
                        i as int + 1,
                    ).filter(|c: ConditionResultV| c.passed));
                }
            }
            i = i + 1;
        }
        proof {
            assert(self.condition_results.deep_view().take(
                self.condition_results.len() as int,
            ) =~= self.condition_results.deep_view());
        }
        out
    }

    /// The rows whose condition failed, in order.
    pub fn failed_conditions(&self) -> (r: Vec<&ConditionResult>)
        ensures
            r.deep_view() == self.condition_results.deep_view().filter(
                |c: ConditionResultV| !c.passed,
            ),
    {
        let mut out: Vec<&ConditionResult> = Vec::new();
        let mut i: usize = 0;
        proof {
            assert(self.condition_results.deep_view().take(0).filter(
                |c: ConditionResultV| !c.passed,
            ) =~= Seq::<ConditionResultV>::empty());
            assert(out.deep_view() =~= Seq::<ConditionResultV>::empty());
        }
        while i < self.condition_results.len()
            invariant
                i <= self.condition_results.len(),
                out.deep_view() == self.condition_results.deep_view().take(i as int).filter(
                    |c: ConditionResultV| !c.passed,
                ),

            decreases self.condition_results.len() - i,
        {
            proof {
                let pre = self.condition_results.deep_view().take(i as int);
                let post = self.condition_results.deep_view().take(i as int + 1);
                assert(post.drop_last() =~= pre);
                assert(post.last() == self.condition_results.deep_view()[i as int]);
                reveal_with_fuel(Seq::filter, 2);
                assert(post.filter(|c: ConditionResultV| !c.passed) == if !post.last().passed {
                    pre.filter(|c: ConditionResultV| !c.passed).push(post.last())
                } else {
                    pre.filter(|c: ConditionResultV| !c.passed)
                });
            }
            let row = &self.condition_results[i];
            if !row.passed {
                out.push(row);
                proof {
                    assert(out.deep_view() =~= self.condition_results.deep_view().take(
                        i as int + 1,
                    ).filter(|c: ConditionResultV| !c.passed));
                }
            }
            i = i + 1;
        }
        proof {
            assert(self.condition_results.deep_view().take(
                self.condition_results.len() as int,
            ) =~= self.condition_results.deep_view());
        }
        out
    }
}

} // verus!
