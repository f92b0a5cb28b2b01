use vstd::prelude::*;

use vstd::string::*;

use crate::scan::{
    after_first, line_pieces, split_after, split_lines, split_words, strip_suffix, trim_start, trim_start_str,
    without_suffix, words,
};
use crate::text::{parse_unsigned, parsed_unsigned, push_char, str_equal};

verus! {

/// Where telemetry samples come from.
#[derive(Clone, Copy, Debug, PartialEq, Eq, Structural)]
pub enum TelemetrySource {
    Synthetic,
    Sysfs,
    Tegrastats,
    Jtop,
}

/// The source a command-line word names, if any.
pub open spec fn source_named(text: Seq<char>) -> Option<TelemetrySource> {
    if text == "synthetic"@ {
        Some(TelemetrySource::Synthetic)
    } else if text == "sysfs"@ {
        Some(TelemetrySource::Sysfs)
    } else if text == "tegrastats"@ {
        Some(TelemetrySource::Tegrastats)
    } else if text == "jtop"@ {
        Some(TelemetrySource::Jtop)
    } else {
        None
    }
}

/// The word that names a source.
pub open spec fn source_name(source: TelemetrySource) -> Seq<char> {
    match source {
        TelemetrySource::Synthetic => "synthetic"@,
        TelemetrySource::Sysfs => "sysfs"@,
        TelemetrySource::Tegrastats => "tegrastats"@,
        TelemetrySource::Jtop => "jtop"@,
    }
}

impl TelemetrySource {
    /// Reads a source from its name: "synthetic", "sysfs", "tegrastats" or "jtop".
    pub fn parse(value: &str) -> (source: Option<Self>)
        ensures
            source == source_named(value@),
    {
        if str_equal(value, "synthetic") {
            Some(TelemetrySource::Synthetic)
        } else if str_equal(value, "sysfs") {
            Some(TelemetrySource::Sysfs)
        } else if str_equal(value, "tegrastats") {
            Some(TelemetrySource::Tegrastats)
        } else if str_equal(value, "jtop") {
            Some(TelemetrySource::Jtop)
        } else {
            None
        }
    }

    /// The source's name.
    pub fn name(self) -> (name: &'static str)
        ensures
            name@ == source_name(self),
    {
        match self {
            TelemetrySource::Synthetic => "synthetic",
            TelemetrySource::Sysfs => "sysfs",
            TelemetrySource::Tegrastats => "tegrastats",
            TelemetrySource::Jtop => "jtop",
        }
    }
}

/// Reading a source's name gives the source back.
pub proof fn lemma_source_name_round_trip(source: TelemetrySource)
    ensures
        source_named(source_name(source)) == Some(source),
{
    reveal_strlit("synthetic");
    reveal_strlit("sysfs");
    reveal_strlit("tegrastats");
    reveal_strlit("jtop");
    assert("synthetic"@.len() != "sysfs"@.len());
    assert("sysfs"@.len() != "tegrastats"@.len());
    assert("sysfs"@.len() != "jtop"@.len());
    assert("synthetic"@[0] != "tegrastats"@[0]);
    assert("synthetic"@[0] != "jtop"@[0]);
    assert("tegrastats"@[0] != "jtop"@[0]);
}

/// The used and total memory texts of a tegrastats line: the first word
/// after `RAM `, split at its first `/`, with `MB` dropped from the total.
pub open spec fn ram_texts(line: Seq<char>) -> Option<(Seq<char>, Seq<char>)> {
    match after_first(line, "RAM "@) {
        None => None,
        Some(after) => if words(after).len() == 0 {
            None
        } else {
            let token = words(after)[0];
            match crate::scan::first_occurrence(token, "/"@) {
                None => None,
                Some(i) => {
                    let total = token.subrange(i + 1, token.len() as int);
                    Some((
                        token.subrange(0, i),
                        match without_suffix(total, "MB"@) {
                            Some(t) => t,
                            None => total,
                        },
                    ))
                },
            }
        },
    }
}

/// The used and total memory texts of a tegrastats line, if it has them.
pub fn ram_fields(line: &str) -> (fields: Option<(String, String)>)
    ensures
        match ram_texts(line@) {
            Some((used, total)) => match fields {
                Some(f) => f.0@ == used && f.1@ == total,
                None => false,
            },
            None => fields is None,
        },
{
    let after = match split_after(line, "RAM ") {
        Some(a) => a,
        None => return None,
    };
    let tokens = split_words(after);
    if tokens.len() == 0 {
        return None;
    }
    let token = tokens[0].as_str();
    assert(token@ == words(after@)[0]);
    let slash = match crate::scan::find(token, "/") {
        Some(i) => i,
        None => return None,
    };
    proof {
        reveal_strlit("/");
    }
    let token_len = token.unicode_len();
    let used = token.substring_char(0, slash);
    let total_raw = token.substring_char(slash + 1, token_len);
    let total = match strip_suffix(total_raw, "MB") {
        Some(t) => t,
        None => total_raw,
    };
    Some((String::from_str(used), String::from_str(total)))
}

/// The first word of `ws` that ends with `%`, without the `%`.
pub open spec fn first_percent_word(ws: Seq<Seq<char>>) -> Option<Seq<char>>
    decreases ws.len(),
{
    if ws.len() == 0 {
        None
    } else {
        match without_suffix(ws[0], "%"@) {
            Some(v) => Some(v),
            None => first_percent_word(ws.drop_first()),
        }
    }
}

/// The first percentage after `label` in `line`, without its `%`.
pub open spec fn percent_text_after(line: Seq<char>, label: Seq<char>) -> Option<Seq<char>> {
    match after_first(line, label) {
        Some(after) => first_percent_word(words(after)),
        None => None,
    }
}

/// The first percentage after `label` in a tegrastats line, as text.
pub fn percent_after(line: &str, label: &str) -> (value: Option<String>)
    ensures
        match percent_text_after(line@, label@) {
            Some(v) => value is Some && value->0@ == v,
            None => value is None,
        },
{
    let after = match split_after(line, label) {
        Some(a) => a,
        None => return None,
    };
    let tokens = split_words(after);
    let ghost ws = words(after@);
    let n = tokens.len();
    let mut i: usize = 0;
    proof {
        assert(ws.subrange(0, ws.len() as int) =~= ws);
    }
    while i < n
        invariant
            n == tokens@.len(),
            i <= n,
            tokens@.map_values(|t: String| t@) == ws,
            ws == words(after@),
            after_first(line@, label@) == Some(after@),
            first_percent_word(ws) == first_percent_word(ws.subrange(i as int, n as int)),
        decreases n - i,
    {
        let ghost rest = ws.subrange(i as int, n as int);
        assert(rest[0] == tokens@[i as int]@);
        match strip_suffix(tokens[i].as_str(), "%") {
            Some(v) => {
                assert(first_percent_word(rest) == Some(v@));
                return Some(String::from_str(v));
            },
            None => {},
        }
        assert(rest.drop_first() =~= ws.subrange(i + 1, n as int));
        i = i + 1;
    }
    None
}

/// The temperature after `label` in `line`: the first word after it, which
/// must end with `C`, without the `C`.
pub open spec fn temperature_text_after(line: Seq<char>, label: Seq<char>) -> Option<Seq<char>> {
    match after_first(line, label) {
        Some(after) => if words(after).len() == 0 {
            None
        } else {
            without_suffix(words(after)[0], "C"@)
        },
        None => None,
    }
}

/// The temperature after `label` in a tegrastats line, as text.
pub fn temperature_after(line: &str, label: &str) -> (value: Option<String>)
    ensures
        match temperature_text_after(line@, label@) {
            Some(v) => value is Some && value->0@ == v,
            None => value is None,
        },
{
    let after = match split_after(line, label) {
        Some(a) => a,
        None => return None,
    };
    let tokens = split_words(after);
    if tokens.len() == 0 {
        return None;
    }
    assert(tokens@[0]@ == words(after@)[0]);
    match strip_suffix(tokens[0].as_str(), "C") {
        Some(v) => Some(String::from_str(v)),
        None => None,
    }
}

/// The temperature a word reports, if it is `name@valueC`: the text between
/// its first `@` and a final `C`.
pub open spec fn word_temperature(word: Seq<char>) -> Option<Seq<char>> {
    match after_first(word, "@"@) {
        Some(value) => without_suffix(value, "C"@),
        None => None,
    }
}

/// The temperatures that the words of `ws` report, in order.
pub open spec fn reported_temperatures(ws: Seq<Seq<char>>) -> Seq<Seq<char>>
    decreases ws.len(),
{
    if ws.len() == 0 {
        Seq::empty()
    } else {
        let rest = reported_temperatures(ws.drop_last());
        match word_temperature(ws.last()) {
            Some(t) => rest.push(t),
            None => rest,
        }
    }
}

/// Every temperature that a tegrastats line reports as `name@valueC`, as text.
pub fn temperature_readings(line: &str) -> (readings: Vec<String>)
    ensures
        readings@.map_values(|r: String| r@) == reported_temperatures(words(line@)),
{
    let tokens = split_words(line);
    let ghost ws = words(line@);
    let mut readings: Vec<String> = Vec::new();
    let n = tokens.len();
    let mut i: usize = 0;
    while i < n
        invariant
            n == tokens@.len(),
            i <= n,
            tokens@.map_values(|t: String| t@) == ws,
            ws == words(line@),
            readings@.map_values(|r: String| r@) == reported_temperatures(ws.take(i as int)),
        decreases n - i,
    {
        let token = tokens[i].as_str();
        proof {
            assert(ws.take(i + 1).drop_last() =~= ws.take(i as int));
            assert(ws.take(i + 1).last() == token@);
        }
        let ghost before = readings@.map_values(|r: String| r@);
        match split_after(token, "@") {
            Some(value) => match strip_suffix(value, "C") {
                Some(t) => {
                    readings.push(String::from_str(t));
                    assert(readings@.map_values(|r: String| r@) =~= before.push(t@));
                },
                None => {},
            },
            None => {},
        }
        i = i + 1;
    }
    proof {
        assert(ws.take(n as int) =~= ws);
    }
    readings
}

/// Whether `c` may belong to a JSON number as the jtop reader takes it: a
/// digit, a point or a minus sign.
pub open spec fn is_number_char(c: char) -> bool {
    ('0' <= c && c <= '9') || c == '.' || c == '-'
}

/// `text` without its leading double quotes.
pub open spec fn without_leading_quotes(text: Seq<char>) -> Seq<char>
    decreases text.len(),
{
    if text.len() > 0 && text[0] == '"' {
        without_leading_quotes(text.drop_first())
    } else {
        text
    }
}

/// The length of the run of number characters that `text` begins with.
pub open spec fn number_run_len(text: Seq<char>) -> nat
    decreases text.len(),
{
    if text.len() > 0 && is_number_char(text[0]) {
        1 + number_run_len(text.drop_first())
    } else {
        0
    }
}

/// The number text of `key` in a one-line JSON object: after the quoted key
/// and the next colon, leading spaces and quotes skipped, the run of digits,
/// points and minus signs.
pub open spec fn json_number_text(json: Seq<char>, key: Seq<char>) -> Option<Seq<char>> {
    match after_first(json, "\""@ + key + "\""@) {
        None => None,
        Some(after_key) => match after_first(after_key, ":"@) {
            None => None,
            Some(after_colon) => {
                let v = without_leading_quotes(trim_start(after_colon));
                Some(v.subrange(0, number_run_len(v) as int))
            },
        },
    }
}

proof fn lemma_number_run_len(text: Seq<char>, e: int)
    requires
        0 <= e <= text.len(),
        forall|k: int| 0 <= k < e ==> is_number_char(#[trigger] text[k]),
        e == text.len() || !is_number_char(text[e]),
    ensures
        number_run_len(text) == e,
    decreases e,
{
    if e > 0 {
        assert forall|k: int| 0 <= k < e - 1 implies is_number_char(#[trigger] text.drop_first()[k]) by {
            assert(text.drop_first()[k] == text[k + 1]);
        }
        if e < text.len() {
            assert(text.drop_first()[e - 1] == text[e]);
        }
        lemma_number_run_len(text.drop_first(), e - 1);
    }
}

proof fn lemma_leading_quotes(text: Seq<char>, i: int)
    requires
        0 <= i <= text.len(),
        forall|k: int| 0 <= k < i ==> #[trigger] text[k] == '"',
        i == text.len() || text[i] != '"',
    ensures
        without_leading_quotes(text) == text.subrange(i, text.len() as int),
    decreases i,
{
    if i > 0 {
        assert forall|k: int| 0 <= k < i - 1 implies #[trigger] text.drop_first()[k] == '"' by {
            assert(text.drop_first()[k] == text[k + 1]);
        }
        if i < text.len() {
            assert(text.drop_first()[i - 1] == text[i]);
        }
        lemma_leading_quotes(text.drop_first(), i - 1);
        assert(text.drop_first().subrange(i - 1, text.drop_first().len() as int) =~= text.subrange(i, text.len() as int));
    } else {
        assert(text.subrange(0, text.len() as int) =~= text);
    }
}

fn number_char(c: char) -> (number: bool)
    ensures
        number == is_number_char(c),
{
    ('0' <= c && c <= '9') || c == '.' || c == '-'
}

/// The number text of `key` in a one-line JSON object, as the jtop reader
/// finds it.
pub fn json_number_token(json: &str, key: &str) -> (token: Option<String>)
    ensures
        match json_number_text(json@, key@) {
            Some(t) => token is Some && token->0@ == t,
            None => token is None,
        },
{
    let mut pattern = String::from_str("\"");
    pattern.append(key);
    pattern.append("\"");
    let after_key = match split_after(json, pattern.as_str()) {
        Some(a) => a,
        None => return None,
    };
    let after_colon = match split_after(after_key, ":") {
        Some(a) => a,
        None => return None,
    };
    let v = trim_start_str(after_colon);
    let n = v.unicode_len();
    let mut start: usize = 0;
    while start < n && v.get_char(start) == '"'
        invariant
            n == v@.len(),
            start <= n,
            forall|k: int| 0 <= k < start ==> #[trigger] v@[k] == '"',
        decreases n - start,
    {
        start = start + 1;
    }
    proof {
        lemma_leading_quotes(v@, start as int);
    }
    let mut end: usize = start;
    while end < n && number_char(v.get_char(end))
        invariant
            n == v@.len(),
            start <= end <= n,
            forall|k: int| start <= k < end ==> is_number_char(#[trigger] v@[k]),
        decreases n - end,
    {
        end = end + 1;
    }
    proof {
        let w = v@.subrange(start as int, n as int);
        assert forall|k: int| 0 <= k < end - start implies is_number_char(#[trigger] w[k]) by {
            assert(w[k] == v@[start + k]);
        }
        if end < n {
            assert(w[end - start] == v@[end as int]);
        }
        lemma_number_run_len(w, end - start);
        assert(w.subrange(0, end - start) =~= v@.subrange(start as int, end as int));
    }
    Some(String::from_str(v.substring_char(start, end)))
}

/// The value of the first line of `/proc/meminfo` text whose first word is
/// `label` (such as `MemTotal:`): its second word read as a `u64`; None when
/// no line has the label, or that word is no `u64`.
pub open spec fn meminfo_value(lines: Seq<Seq<char>>, label: Seq<char>) -> Option<nat>
    decreases lines.len(),
{
    if lines.len() == 0 {
        None
    } else {
        let ws = words(lines[0]);
        if ws.len() > 0 && ws[0] == label {
            if ws.len() > 1 {
                parsed_unsigned(ws[1], u64::MAX as nat)
            } else {
                None
            }
        } else {
            meminfo_value(lines.drop_first(), label)
        }
    }
}

/// Reads one field of `/proc/meminfo`, in kilobytes.
pub fn meminfo_field(text: &str, label: &str) -> (value: Option<u64>)
    ensures
        match meminfo_value(line_pieces(text@), label@) {
            Some(v) => value == Some(v as u64),
            None => value is None,
        },
{
    let lines = split_lines(text);
    let ghost all = line_pieces(text@);
    let n = lines.len();
    let mut i: usize = 0;
    proof {
        assert(all.subrange(0, all.len() as int) =~= all);
    }
    while i < n
        invariant
            n == lines@.len(),
            i <= n,
            lines@.map_values(|l: String| l@) == all,
            all == line_pieces(text@),
            meminfo_value(all, label@) == meminfo_value(all.subrange(i as int, n as int), label@),
        decreases n - i,
    {
        let ghost rest = all.subrange(i as int, n as int);
        assert(rest[0] == lines@[i as int]@);
        let ws = split_words(lines[i].as_str());
        proof {
            assert(ws@.map_values(|w: String| w@) == words(rest[0]));
        }
        if ws.len() > 0 && str_equal(ws[0].as_str(), label) {
            proof {
                assert(ws@[0]@ == words(rest[0])[0]);
            }
            if ws.len() > 1 {
                proof {
                    assert(ws@[1]@ == words(rest[0])[1]);
                }
                return parse_unsigned(ws[1].as_str(), u64::MAX);
            }
            return None;
        }
        proof {
            if ws.len() > 0 {
                assert(ws@[0]@ == words(rest[0])[0]);
            }
        }
        assert(rest.drop_first() =~= all.subrange(i + 1, n as int));
        i = i + 1;
    }
    proof {
        assert(all.subrange(i as int, n as int) =~= Seq::<Seq<char>>::empty());
    }
    None
}

/// One telemetry sample: the reading in use, the source it came from, and
/// whether that source answered.
#[derive(Clone, Copy, Debug, PartialEq, Eq, Structural)]
pub struct TelemetrySample<T> {
    pub telemetry: T,
    pub source: TelemetrySource,
    pub valid: bool,
}

/// The last telemetry reading that came from a valid sample.
#[derive(Clone, Copy, Debug)]
pub struct LastGoodSample<T> {
    last_good: T,
}

impl<T: Copy> LastGoodSample<T> {
    /// Starts from `initial`, taken as good.
    pub fn new(initial: T) -> (hold: Self)
        ensures
            hold.last_good() == initial,
    {
        LastGoodSample { last_good: initial }
    }

    /// The reading kept.
    pub closed spec fn last_good(&self) -> T {
        self.last_good
    }

    /// Takes a new sample: a valid one is used and kept, an invalid one is
    /// replaced by the last good reading, which stays.
    pub fn take_sample(&mut self, telemetry: T, valid: bool) -> (used: T)
        ensures
            valid ==> used == telemetry && final(self).last_good() == telemetry,
            !valid ==> used == old(self).last_good() && final(self).last_good() == old(self).last_good(),
    {
        if valid {
            self.last_good = telemetry;
            telemetry
        } else {
            self.last_good
        }
    }

    /// Takes what a source gave: a valid sample is used as it is and its
    /// reading kept; an invalid one keeps its source and `valid == false` but
    /// carries the last good reading, which stays.
    pub fn accept(&mut self, sample: TelemetrySample<T>) -> (used: TelemetrySample<T>)
        ensures
            sample.valid ==> used == sample && final(self).last_good() == sample.telemetry,
            !sample.valid ==> used == (TelemetrySample {
                telemetry: old(self).last_good(),
                source: sample.source,
                valid: false,
            }) && final(self).last_good() == old(self).last_good(),
    {
        let telemetry = self.take_sample(sample.telemetry, sample.valid);
        TelemetrySample { telemetry, source: sample.source, valid: sample.valid }
    }

    /// The reading kept.
    pub fn current(&self) -> (reading: T)
        ensures
            reading == self.last_good(),
    {
        self.last_good
    }
}

} // verus!
