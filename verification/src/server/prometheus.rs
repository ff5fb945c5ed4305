//! Statistics as lines of text for a Prometheus scrape.

use crate::server::stats::BaseStatsInner;
use vstd::prelude::*;
use vstd::string::StringExecFns;

verus! {

/// Statistics that can be written out as lines of `name value`.
pub trait AsPrometheus {
    fn as_prometheus(&self) -> Vec<String>;
}

/// The character of a decimal digit.
pub open spec fn digit_char(d: nat) -> char {
    (('0' as nat) + d) as char
}

/// A number in decimal notation, without sign or leading zeros.
pub open spec fn decimal(n: nat) -> Seq<char>
    decreases n,
{
    if n < 10 {
        seq![digit_char(n)]
    } else {
        decimal(n / 10).push(digit_char(n % 10))
    }
}

/// A number in decimal notation.
pub fn decimal_string(n: usize) -> (text: String)
    ensures
        text@ == decimal(n as nat),
{
    let mut digits: Vec<char> = Vec::new();
    digits.push((48u8 + (n % 10) as u8) as char);
    let mut rest = n / 10;
    while rest > 0
        invariant
            digits@.len() > 0,
            rest > 0 ==> decimal(n as nat) == decimal(rest as nat) + digits@.reverse(),
            rest == 0 ==> decimal(n as nat) == digits@.reverse(),
        decreases rest,
    {
        let ghost earlier = digits@;
        let digit = (48u8 + (rest % 10) as u8) as char;
        digits.push(digit);
        proof {
            assert(digits@.reverse() =~= seq![digit] + earlier.reverse());
            if rest < 10 {
                assert(decimal(rest as nat) + earlier.reverse() =~= digits@.reverse());
            } else {
                assert(decimal(rest as nat) + earlier.reverse() =~= decimal((rest / 10) as nat)
                    + digits@.reverse());
            }
        }
        rest = rest / 10;
    }
    let mut text = String::new();
    let mut left = digits.len();
    while left > 0
        invariant
            left <= digits@.len(),
            text@ == digits@.reverse().take(digits@.len() - left),
        decreases left,
    {
        left = left - 1;
        let ghost earlier = text@;
        text.push(digits[left]);
        proof {
            assert(text@ =~= digits@.reverse().take(digits@.len() - left));
        }
    }
    proof {
        assert(digits@.reverse().take(digits@.len() as int) == digits@.reverse());
    }
    text
}

/// The line of a counter: its name, a space, its value.
pub open spec fn stat_line(name: Seq<char>, value: nat) -> Seq<char> {
    name + seq![' '] + decimal(value)
}

/// The line of the answers with one status code.
pub open spec fn status_line(code: u16, value: usize) -> Seq<char> {
    "status_codes{code=\""@ + decimal(code as nat) + "\"} "@ + decimal(value as nat)
}

/// Writes the line of a counter.
pub fn format_stat(name: &str, value: usize) -> (line: String)
    ensures
        line@ == stat_line(name@, value as nat),
{
    let mut line = String::from_str(name);
    line.push(' ');
    line.append(decimal_string(value).as_str());
    line
}

/// Writes the line of the answers with one status code.
pub fn format_status(code: u16, value: usize) -> (line: String)
    ensures
        line@ == status_line(code, value),
{
    let mut line = String::from_str("status_codes{code=\"");
    line.append(decimal_string(code as usize).as_str());
    line.append("\"} ");
    line.append(decimal_string(value).as_str());
    line
}

/// The strings of a list as text.
pub open spec fn lines_text(lines: Seq<String>) -> Seq<Seq<char>> {
    lines.map_values(|s: String| s@)
}

/// `codes` lists the keys of `counts`, each once.
pub open spec fn lists_codes(codes: Seq<u16>, counts: Map<u16, usize>) -> bool {
    &&& codes.no_duplicates()
    &&& forall|i: int| 0 <= i < codes.len() ==> counts.contains_key(#[trigger] codes[i])
    &&& forall|code: u16| counts.contains_key(code) ==> codes.contains(code)
}

/// The lines of the common counters, the status codes in the given order.
pub open spec fn base_lines(stats: BaseStatsInner, codes: Seq<u16>) -> Seq<Seq<char>> {
    seq![
        stat_line("request_started"@, stats.started() as nat),
        stat_line("request_finished"@, stats.finished() as nat),
    ] + codes.map_values(|code: u16| status_line(code, stats.codes()[code]))
}

impl AsPrometheus for BaseStatsInner {
    /// The two request counters, then one line for each status code that
    /// came. The order of those lines is not fixed.
    fn as_prometheus(&self) -> (out: Vec<String>)
        ensures
            exists|codes: Seq<u16>|
                lists_codes(codes, self.codes()) && lines_text(out@) == #[trigger] base_lines(
                    *self,
                    codes,
                ),
    {
        let mut out: Vec<String> = Vec::new();
        out.push(format_stat("request_started", self.request_started()));
        out.push(format_stat("request_finished", self.request_finished()));
        let codes = self.status_codes();
        let ghost head = lines_text(out@);
        proof {
            reveal_strlit(" ");
            assert(head =~= seq![
                stat_line("request_started"@, self.started() as nat),
                stat_line("request_finished"@, self.finished() as nat),
            ]);
        }
        let mut i: usize = 0;
        while i < codes.len()
            invariant
                i <= codes@.len(),
                lists_codes(codes@, self.codes()),
                lines_text(out@) == head + codes@.take(i as int).map_values(
                    |code: u16| status_line(code, self.codes()[code]),
                ),
            decreases codes@.len() - i,
        {
            let code = codes[i];
            let ghost earlier = out@;
            out.push(format_status(code, self.status_count(code)));
            proof {
                assert(lines_text(out@) =~= lines_text(earlier).push(
                    status_line(code, self.codes()[code]),
                ));
                assert(codes@.take(i + 1).map_values(
                    |code: u16| status_line(code, self.codes()[code]),
                ) =~= codes@.take(i as int).map_values(
                    |code: u16| status_line(code, self.codes()[code]),
                ).push(status_line(code, self.codes()[code])));
            }
            i = i + 1;
        }
        proof {
            assert(codes@.take(codes@.len() as int) == codes@);
            assert(lines_text(out@) == base_lines(*self, codes@));
        }
        out
    }
}

/// Every line of `lines` with `prefix` before it.
pub open spec fn prefixed(prefix: Seq<char>, lines: Seq<Seq<char>>) -> Seq<Seq<char>> {
    lines.map_values(|line: Seq<char>| prefix + line)
}

/// The lines of a service's statistics: the common ones marked `base_`, then
/// the service's own marked `service_`.
pub fn join_stats(base_stats: Vec<String>, service_stats: Vec<String>) -> (out: Vec<String>)
    ensures
        lines_text(out@) == prefixed("base_"@, lines_text(base_stats@)) + prefixed(
            "service_"@,
            lines_text(service_stats@),
        ),
{
    let mut out: Vec<String> = Vec::new();
    let mut i: usize = 0;
    while i < base_stats.len()
        invariant
            i <= base_stats@.len(),
            lines_text(out@) == prefixed("base_"@, lines_text(base_stats@).take(i as int)),
        decreases base_stats@.len() - i,
    {
        let mut line = String::from_str("base_");
        line.append(base_stats[i].as_str());
        let ghost earlier = out@;
        out.push(line);
        proof {
            let given = lines_text(base_stats@);
            assert(lines_text(out@) =~= lines_text(earlier).push("base_"@ + given[i as int]));
            assert(prefixed("base_"@, given.take(i + 1)) =~= prefixed(
                "base_"@,
                given.take(i as int),
            ).push("base_"@ + given[i as int]));
        }
        i = i + 1;
    }
    let ghost based = lines_text(out@);
    proof {
        assert(lines_text(base_stats@).take(base_stats@.len() as int) == lines_text(base_stats@));
        assert(based =~= based + prefixed("service_"@, lines_text(service_stats@).take(0)));
    }
    let mut j: usize = 0;
    while j < service_stats.len()
        invariant
            j <= service_stats@.len(),
            lines_text(out@) == based + prefixed(
                "service_"@,
                lines_text(service_stats@).take(j as int),
            ),
        decreases service_stats@.len() - j,
    {
        let mut line = String::from_str("service_");
        line.append(service_stats[j].as_str());
        let ghost earlier = out@;
        out.push(line);
        proof {
            let given = lines_text(service_stats@);
            assert(lines_text(out@) =~= lines_text(earlier).push("service_"@ + given[j as int]));
            assert(prefixed("service_"@, given.take(j + 1)) =~= prefixed(
                "service_"@,
                given.take(j as int),
            ).push("service_"@ + given[j as int]));
            assert(lines_text(out@) =~= based + prefixed("service_"@, given.take(j + 1)));
        }
        j = j + 1;
    }
    proof {
        assert(lines_text(service_stats@).take(service_stats@.len() as int) == lines_text(
            service_stats@,
        ));
    }
    out
}

/// The common counters together with a service's own statistics.
pub struct StatsOutput<D> {
    pub base: BaseStatsInner,
    pub service: Option<D>,
}

/// The lines of a service's statistics: the common ones marked `base_`, then
/// the service's own marked `service_`.
pub open spec fn joined_lines(base: Seq<Seq<char>>, service: Seq<Seq<char>>) -> Seq<Seq<char>> {
    prefixed("base_"@, base) + prefixed("service_"@, service)
}

impl<D: AsPrometheus> AsPrometheus for StatsOutput<D> {
    /// The lines of the common counters, marked `base_`, and after them the
    /// lines of the service, marked `service_`. The common counters come as
    /// [`base_lines`] has them, the status codes in some order; the lines of
    /// the service are whatever the service writes for itself, and none
    /// where there is no service.
    fn as_prometheus(&self) -> (out: Vec<String>)
        ensures
            exists|codes: Seq<u16>, service: Vec<String>|
                #![trigger base_lines(self.base, codes), lines_text(service@)]
                lists_codes(codes, self.base.codes()) && call_ensures(
                    Option::<D>::as_prometheus,
                    (&self.service,),
                    service,
                ) && lines_text(out@) == joined_lines(
                    base_lines(self.base, codes),
                    lines_text(service@),
                ),
    {
        let base_stats = self.base.as_prometheus();
        let service_stats = self.service.as_prometheus();
        let ghost codes = choose|codes: Seq<u16>|
            lists_codes(codes, self.base.codes()) && lines_text(base_stats@) == #[trigger] base_lines(
                self.base,
                codes,
            );
        let ghost service = service_stats;
        let out = join_stats(base_stats, service_stats);
        assert(lines_text(out@) == joined_lines(base_lines(self.base, codes), lines_text(service@)));
        out
    }
}

impl<T: AsPrometheus> AsPrometheus for Option<T> {
    /// The lines of what is there, as it writes them itself; no lines where
    /// nothing is there.
    fn as_prometheus(&self) -> (out: Vec<String>)
        ensures
            match self {
                Some(t) => call_ensures(T::as_prometheus, (t,), out),
                None => out@ == Seq::<String>::empty(),
            },
    {
        if let Some(t) = self {
            t.as_prometheus()
        } else {
            Vec::new()
        }
    }
}

impl AsPrometheus for () {
    /// No lines.
    fn as_prometheus(&self) -> (out: Vec<String>)
        ensures
            out@.len() == 0,
    {
        Vec::new()
    }
}

} // verus!
