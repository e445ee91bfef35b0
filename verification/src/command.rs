//! Argument lists for the two tool invocations.
//!
//! Pure projections of a resolved configuration: nothing is executed and no
//! executable path is resolved here. The embedding program locates the
//! program named by `program` and runs it with `args`.

use vstd::prelude::*;
use crate::config::Config;
use crate::json::pairs_view;

verus! {

/// The view of an argument vector.
pub open spec fn args_view(v: Seq<String>) -> Seq<Seq<char>> {
    v.map_values(|s: String| s@)
}

/// The cleanup arguments: delete the jobs labelled with the release.
pub open spec fn clean_args(release: Seq<char>) -> Seq<Seq<char>> {
    seq!["delete"@, "jobs"@, "-l"@, "release="@ + release]
}

/// One `--set key=value` pair per resolved values entry, in map order.
pub open spec fn set_args(values: Seq<(Seq<char>, Seq<char>)>) -> Seq<Seq<char>>
    decreases values.len(),
{
    if values.len() == 0 {
        Seq::empty()
    } else {
        set_args(values.drop_last()) + seq!["--set"@, values.last().0 + "="@ + values.last().1]
    }
}

/// The upgrade arguments: install-or-upgrade the release with every
/// override, the chart as the final positional argument.
pub open spec fn upgrade_args(
    release: Seq<char>,
    values: Seq<(Seq<char>, Seq<char>)>,
    chart: Seq<char>,
) -> Seq<Seq<char>> {
    seq!["upgrade"@, "-i"@, release] + set_args(values) + seq![chart]
}

/// A program name and its ordered arguments, not yet executed.
pub struct CommandLine {
    pub program: String,
    pub args: Vec<String>,
}

impl Config {
    /// The cleanup invocation for this configuration's release.
    pub fn build_clean_command(&self) -> (r: CommandLine)
        ensures
            r.program@ == "kubectl"@,
            args_view(r.args@) == clean_args(self.release@),
    {
        let mut selector = String::from_str("release=");
        selector.append(self.release.as_str());
        let mut args: Vec<String> = Vec::new();
        args.push(String::from_str("delete"));
        args.push(String::from_str("jobs"));
        args.push(String::from_str("-l"));
        args.push(selector);
        proof {
            assert(args_view(args@) =~~= clean_args(self.release@));
        }
        CommandLine { program: String::from_str("kubectl"), args }
    }

    /// The upgrade invocation for this configuration's release, resolved
    /// values and chart.
    pub fn build_upgrade_command(&self) -> (r: CommandLine)
        ensures
            r.program@ == "helm"@,
            args_view(r.args@) == upgrade_args(
                self.release@,
                pairs_view(self.values@),
                self.chart@,
            ),
    {
        let ghost pairs = pairs_view(self.values@);
        let mut args: Vec<String> = Vec::new();
        args.push(String::from_str("upgrade"));
        args.push(String::from_str("-i"));
        args.push(String::from_str(self.release.as_str()));
        proof {
            assert(pairs.take(0) =~= Seq::empty());
            assert(args_view(args@) =~~= seq!["upgrade"@, "-i"@, self.release@] + set_args(
                pairs.take(0),
            ));
        }
        let n = self.values.len();
        let mut i: usize = 0;
        while i < n
            invariant
                n == self.values.len(),
                pairs == pairs_view(self.values@),
                pairs.len() == n,
                0 <= i <= n,
                args_view(args@) == seq!["upgrade"@, "-i"@, self.release@] + set_args(
                    pairs.take(i as int),
                ),
            decreases n - i,
        {
            proof {
                assert(pairs[i as int] == (self.values@[i as int].0@, self.values@[
                    i as int
                ].1@));
            }
            let mut pair = String::from_str(self.values[i].0.as_str());
            pair.append("=");
            pair.append(self.values[i].1.as_str());
            let ghost pre = args@;
            let ghost pair_text = pair@;
            args.push(String::from_str("--set"));
            args.push(pair);
            proof {
                let next = pairs.take(i as int + 1);
                assert(pair_text == pairs[i as int].0 + "="@ + pairs[i as int].1);
                assert(args_view(args@) =~~= args_view(pre) + seq!["--set"@, pair_text]);
                assert(next.drop_last() =~= pairs.take(i as int));
                assert(next.last() == pairs[i as int]);
                assert(set_args(next) == set_args(pairs.take(i as int)) + seq![
                    "--set"@,
                    pairs[i as int].0 + "="@ + pairs[i as int].1,
                ]);
                assert(args_view(args@) =~~= seq!["upgrade"@, "-i"@, self.release@] + set_args(
                    next,
                ));
            }
            i += 1;
        }
        args.push(String::from_str(self.chart.as_str()));
        proof {
            assert(pairs.take(n as int) =~= pairs);
            assert(args_view(args@) =~~= upgrade_args(self.release@, pairs, self.chart@));
        }
        CommandLine { program: String::from_str("helm"), args }
    }
}

} // verus!
