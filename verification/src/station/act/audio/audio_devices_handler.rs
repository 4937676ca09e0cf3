//! The audio sinks and sources of the station, read from the status report of
//! the PipeWire control tool (`wpctl status`).
//!
//! The report lists sections (`Audio`, `Video`, `Settings`) with subsections
//! (`Sinks:`, `Sources:`, `Filters:`, ...). Each device line holds an id, a dot,
//! the name and a volume in brackets; the default device carries a `*`.
use std::collections::HashMap;
use vstd::prelude::*;

use crate::text::{
    all_ascii_digits, all_digits, chars_of, contains_char, contains_seq, contains_str,
    digits_value, find_char, first_index, lines, parse_digits_i32, remove_all, remove_char,
    split_lines, string_from_chars, sub_chars, trim, trim_chars,
};

verus! {

broadcast use vstd::std_specs::hash::group_hash_axioms;

/// The section of the report that a line belongs to.
#[derive(Clone, Copy, Debug, PartialEq, Eq, Structural)]
pub enum Section {
    Other,
    Audio,
}

/// The subsection of the report that a line belongs to.
#[derive(Clone, Copy, Debug, PartialEq, Eq, Structural)]
pub enum Subsection {
    Nothing,
    Sinks,
    Sources,
}

/// What reading the report so far has found.
pub struct ParseState {
    pub section: Section,
    pub subsection: Subsection,
    pub sinks: Map<i32, Seq<char>>,
    pub sources: Map<i32, Seq<char>>,
    pub default_sink: Option<i32>,
    pub default_source: Option<i32>,
    /// A device id did not fit an `i32`; reading stopped there.
    pub failed: bool,
}

/// What a device line holds.
pub enum EntryView {
    /// The line lists no device.
    NoEntry,
    /// The id does not fit an `i32`.
    Overflow,
    /// A device with its id and name.
    Entry(i32, Seq<char>),
}

pub open spec fn initial_parse_state() -> ParseState {
    ParseState {
        section: Section::Other,
        subsection: Subsection::Nothing,
        sinks: Map::empty(),
        sources: Map::empty(),
        default_sink: None,
        default_source: None,
        failed: false,
    }
}

/// The section after `line`.
pub open spec fn next_section(section: Section, line: Seq<char>) -> Section {
    if contains_seq(line, "Audio"@) {
        Section::Audio
    } else if contains_seq(line, "Video"@) || contains_seq(line, "Settings"@) {
        Section::Other
    } else {
        section
    }
}

pub open spec fn is_tree_char(c: char) -> bool {
    c == '\u{251c}' || c == '\u{2514}' || c == '\u{2500}'
}

/// The device that `line` lists: after trimming, a line that is empty or
/// starts with a tree-drawing character lists none; otherwise, without `│` and
/// `*`, it reads `<digits>.<name> [<volume>]`.
pub open spec fn entry_of(line: Seq<char>) -> EntryView {
    let t = trim(line);
    if t.len() == 0 || is_tree_char(t[0]) {
        EntryView::NoEntry
    } else {
        let san = trim(remove_char(remove_char(t, '\u{2502}'), '*'));
        match first_index(san, '.') {
            None => EntryView::NoEntry,
            Some(d) => {
                let pid = san.subrange(0, d);
                if !(all_ascii_digits(pid) && pid.len() > 0) {
                    EntryView::NoEntry
                } else if digits_value(pid) > i32::MAX {
                    EntryView::Overflow
                } else {
                    let rest = trim(san.subrange(d + 1, san.len() as int));
                    let name = match first_index(rest, '[') {
                        Some(b) => trim(rest.subrange(0, b)),
                        None => rest,
                    };
                    EntryView::Entry(digits_value(pid) as i32, name)
                }
            },
        }
    }
}

/// Reading one more line of the report.
pub open spec fn parse_line(st: ParseState, line: Seq<char>) -> ParseState {
    if st.failed {
        st
    } else {
        let section = next_section(st.section, line);
        if contains_seq(line, "Sinks:"@) {
            ParseState { section, subsection: Subsection::Sinks, ..st }
        } else if contains_seq(line, "Sources:"@) {
            ParseState { section, subsection: Subsection::Sources, ..st }
        } else if contains_seq(line, "Filters:"@) || contains_seq(line, "Video:"@) || contains_seq(
            line,
            "Settings:"@,
        ) {
            ParseState { section, subsection: Subsection::Nothing, ..st }
        } else if st.subsection == Subsection::Nothing {
            ParseState { section, ..st }
        } else {
            match entry_of(line) {
                EntryView::NoEntry => ParseState { section, ..st },
                EntryView::Overflow => ParseState { section, failed: true, ..st },
                EntryView::Entry(id, name) => {
                    if section != Section::Audio {
                        ParseState { section, ..st }
                    } else if st.subsection == Subsection::Sinks {
                        ParseState {
                            section,
                            sinks: st.sinks.insert(id, name),
                            default_sink: if line.contains('*') { Some(id) } else { st.default_sink },
                            ..st
                        }
                    } else {
                        ParseState {
                            section,
                            sources: st.sources.insert(id, name),
                            default_source: if line.contains('*') { Some(id) } else { st.default_source },
                            ..st
                        }
                    }
                },
            }
        }
    }
}

/// Reading the lines `ls` in order.
pub open spec fn parse_lines(ls: Seq<Seq<char>>) -> ParseState
    decreases ls.len(),
{
    if ls.len() == 0 {
        initial_parse_state()
    } else {
        parse_line(parse_lines(ls.drop_last()), ls.last())
    }
}

/// Reading a whole report.
pub open spec fn parse_status(status: Seq<char>) -> ParseState {
    parse_lines(lines(status))
}

/// Why reading the report failed.
#[derive(Clone, Copy, Debug, PartialEq, Eq, Structural)]
pub enum AudioDevicesError {
    /// A device id does not fit an `i32`.
    InvalidId,
}

/// The plain values of a map of names.
pub open spec fn view_names(m: Map<i32, String>) -> Map<i32, Seq<char>> {
    m.map_values(|s: String| s@)
}

/// A device line, read.
pub enum Entry {
    NoEntry,
    Overflow,
    Device(i32, String),
}

impl View for Entry {
    type V = EntryView;

    open spec fn view(&self) -> EntryView {
        match self {
            Entry::NoEntry => EntryView::NoEntry,
            Entry::Overflow => EntryView::Overflow,
            Entry::Device(id, name) => EntryView::Entry(*id, name@),
        }
    }
}

fn parse_entry(line: &[char]) -> (r: Entry)
    ensures
        r@ == entry_of(line@),
{
    let trimmed = trim_chars(line);
    if trimmed.len() == 0 || trimmed[0] == '\u{251c}' || trimmed[0] == '\u{2514}' || trimmed[0]
        == '\u{2500}' {
        return Entry::NoEntry;
    }
    let without_bars = remove_all(trimmed.as_slice(), '\u{2502}');
    let without_stars = remove_all(without_bars.as_slice(), '*');
    let sanitized = trim_chars(without_stars.as_slice());
    let dot_idx = match find_char(sanitized.as_slice(), '.') {
        Some(d) => d,
        None => return Entry::NoEntry,
    };
    let potential_id = sub_chars(sanitized.as_slice(), 0, dot_idx);
    if !(all_digits(potential_id.as_slice()) && potential_id.len() > 0) {
        return Entry::NoEntry;
    }
    let id = match parse_digits_i32(potential_id.as_slice()) {
        Some(v) => v,
        None => return Entry::Overflow,
    };
    assert(dot_idx < sanitized.len());
    let after_dot = sub_chars(sanitized.as_slice(), dot_idx + 1, sanitized.len());
    let rest = trim_chars(after_dot.as_slice());
    let name = match find_char(rest.as_slice(), '[') {
        Some(b) => {
            let before = sub_chars(rest.as_slice(), 0, b);
            trim_chars(before.as_slice())
        },
        None => rest,
    };
    Entry::Device(id, string_from_chars(name.as_slice()))
}

/// The audio devices of the station and which of them are the defaults.
pub struct AudioDevicesHandler {
    sinks: HashMap<i32, String>,
    sources: HashMap<i32, String>,
    default_sink_id: Option<i32>,
    default_source_id: Option<i32>,
}

impl AudioDevicesHandler {
    /// Sinks by id.
    pub closed spec fn sinks(&self) -> Map<i32, Seq<char>> {
        view_names(self.sinks@)
    }

    /// Sources by id.
    pub closed spec fn sources(&self) -> Map<i32, Seq<char>> {
        view_names(self.sources@)
    }

    pub closed spec fn default_sink(&self) -> Option<i32> {
        self.default_sink_id
    }

    pub closed spec fn default_source(&self) -> Option<i32> {
        self.default_source_id
    }

    /// The devices hold what reading `status` found.
    pub open spec fn holds(&self, st: ParseState) -> bool {
        &&& self.sinks() == st.sinks
        &&& self.sources() == st.sources
        &&& self.default_sink() == st.default_sink
        &&& self.default_source() == st.default_source
    }

    /// The devices that the status report `wpctl_status` lists.
    pub fn new(wpctl_status: &str) -> (r: Result<Self, AudioDevicesError>)
        ensures
            match r {
                Ok(h) => !parse_status(wpctl_status@).failed && h.holds(parse_status(wpctl_status@)),
                Err(e) => parse_status(wpctl_status@).failed && e == AudioDevicesError::InvalidId,
            },
    {
        let mut handler = AudioDevicesHandler {
            sinks: HashMap::new(),
            sources: HashMap::new(),
            default_sink_id: None,
            default_source_id: None,
        };
        match handler.fetch_audio_devices(wpctl_status) {
            Ok(()) => Ok(handler),
            Err(e) => Err(e),
        }
    }

    /// Replaces the devices by those that the status report `wpctl_status`
    /// lists. When a device id does not fit an `i32`, reading stops there:
    /// the devices read so far stay and the error is returned.
    pub fn fetch_audio_devices(&mut self, wpctl_status: &str) -> (r: Result<(), AudioDevicesError>)
        ensures
            final(self).holds(parse_status(wpctl_status@)),
            r is Ok <==> !parse_status(wpctl_status@).failed,
            r is Err ==> r == Err::<(), AudioDevicesError>(AudioDevicesError::InvalidId),
    {
        let text = chars_of(wpctl_status);
        let all_lines = split_lines(text.as_slice());
        let ghost ls = lines(text@);
        // Remove all data from the previous reading.
        self.sinks.clear();
        self.sources.clear();
        self.default_sink_id = None;
        self.default_source_id = None;
        let mut section = Section::Other;
        let mut subsection = Subsection::Nothing;
        proof {
            assert(ls.take(0) =~= Seq::<Seq<char>>::empty());
            assert(view_names(self.sinks@) =~= Map::<i32, Seq<char>>::empty());
            assert(view_names(self.sources@) =~= Map::<i32, Seq<char>>::empty());
        }
        let mut i: usize = 0;
        while i < all_lines.len()
            invariant
                i <= all_lines@.len(),
                ls == lines(wpctl_status@),
                all_lines@.len() == ls.len(),
                forall|k: int| 0 <= k < all_lines@.len() ==> #[trigger] all_lines@[k]@ == ls[k],
                !parse_lines(ls.take(i as int)).failed,
                section == parse_lines(ls.take(i as int)).section,
                subsection == parse_lines(ls.take(i as int)).subsection,
                self.holds(parse_lines(ls.take(i as int))),
            decreases all_lines@.len() - i,
        {
            let ghost st = parse_lines(ls.take(i as int));
            proof {
                assert(ls.take(i + 1).drop_last() =~= ls.take(i as int));
                assert(ls.take(i + 1).last() == ls[i as int]);
            }
            let line = all_lines[i].as_slice();
            assert(line@ == ls[i as int]);
            // Detect main sections.
            if contains_str(line, "Audio") {
                section = Section::Audio;
            } else if contains_str(line, "Video") || contains_str(line, "Settings") {
                section = Section::Other;
            }
            // Detect subsections.
            if contains_str(line, "Sinks:") {
                subsection = Subsection::Sinks;
            } else if contains_str(line, "Sources:") {
                subsection = Subsection::Sources;
            } else if contains_str(line, "Filters:") || contains_str(line, "Video:") || contains_str(
                line,
                "Settings:",
            ) {
                subsection = Subsection::Nothing;
            } else if subsection != Subsection::Nothing {
                match parse_entry(line) {
                    Entry::NoEntry => {},
                    Entry::Overflow => {
                        proof {
                            lemma_failed_stays(ls, i as int + 1);
                        }
                        return Err(AudioDevicesError::InvalidId);
                    },
                    Entry::Device(id, name) => {
                        if section == Section::Audio {
                            let is_default = contains_char(line, '*');
                            if subsection == Subsection::Sinks {
                                let ghost old_sinks = self.sinks@;
                                let ghost name_view = name@;
                                self.sinks.insert(id, name);
                                proof {
                                    assert(view_names(self.sinks@) =~= view_names(old_sinks).insert(id, name_view));
                                }
                                if is_default {
                                    self.default_sink_id = Some(id);
                                }
                            } else {
                                let ghost old_sources = self.sources@;
                                let ghost name_view = name@;
                                self.sources.insert(id, name);
                                proof {
                                    assert(view_names(self.sources@) =~= view_names(old_sources).insert(id, name_view));
                                }
                                if is_default {
                                    self.default_source_id = Some(id);
                                }
                            }
                        }
                    },
                }
            }
            i = i + 1;
        }
        proof {
            assert(ls.take(ls.len() as int) =~= ls);
        }
        Ok(())
    }

    /// The sinks (outputs) by id, as the status report `wpctl_status` lists them.
    pub fn get_sinks(&mut self, wpctl_status: &str) -> (r: Result<&HashMap<i32, String>, AudioDevicesError>)
        ensures
            final(self).holds(parse_status(wpctl_status@)),
            match r {
                Ok(m) => !parse_status(wpctl_status@).failed && view_names(m@) == parse_status(wpctl_status@).sinks,
                Err(e) => parse_status(wpctl_status@).failed && e == AudioDevicesError::InvalidId,
            },
    {
        match self.fetch_audio_devices(wpctl_status) {
            Ok(()) => Ok(&self.sinks),
            Err(e) => Err(e),
        }
    }

    /// The sources (inputs) by id, as the status report `wpctl_status` lists them.
    pub fn get_sources(&mut self, wpctl_status: &str) -> (r: Result<&HashMap<i32, String>, AudioDevicesError>)
        ensures
            final(self).holds(parse_status(wpctl_status@)),
            match r {
                Ok(m) => !parse_status(wpctl_status@).failed && view_names(m@) == parse_status(wpctl_status@).sources,
                Err(e) => parse_status(wpctl_status@).failed && e == AudioDevicesError::InvalidId,
            },
    {
        match self.fetch_audio_devices(wpctl_status) {
            Ok(()) => Ok(&self.sources),
            Err(e) => Err(e),
        }
    }

    /// The id of the default sink in the status report `wpctl_status`.
    pub fn get_default_sink_id(&mut self, wpctl_status: &str) -> (r: Result<Option<i32>, AudioDevicesError>)
        ensures
            final(self).holds(parse_status(wpctl_status@)),
            match r {
                Ok(id) => !parse_status(wpctl_status@).failed && id == parse_status(wpctl_status@).default_sink,
                Err(e) => parse_status(wpctl_status@).failed && e == AudioDevicesError::InvalidId,
            },
    {
        match self.fetch_audio_devices(wpctl_status) {
            Ok(()) => Ok(self.default_sink_id),
            Err(e) => Err(e),
        }
    }

    /// The id of the default source in the status report `wpctl_status`.
    pub fn get_default_source_id(&mut self, wpctl_status: &str) -> (r: Result<Option<i32>, AudioDevicesError>)
        ensures
            final(self).holds(parse_status(wpctl_status@)),
            match r {
                Ok(id) => !parse_status(wpctl_status@).failed && id == parse_status(wpctl_status@).default_source,
                Err(e) => parse_status(wpctl_status@).failed && e == AudioDevicesError::InvalidId,
            },
    {
        match self.fetch_audio_devices(wpctl_status) {
            Ok(()) => Ok(self.default_source_id),
            Err(e) => Err(e),
        }
    }
}

/// A default device is always one of the listed devices: the default sink is
/// a sink, the default source a source.
pub proof fn lemma_defaults_are_listed(ls: Seq<Seq<char>>)
    ensures
        parse_lines(ls).default_sink matches Some(id) ==> parse_lines(ls).sinks.contains_key(id),
        parse_lines(ls).default_source matches Some(id) ==> parse_lines(ls).sources.contains_key(id),
    decreases ls.len(),
{
    if ls.len() > 0 {
        lemma_defaults_are_listed(ls.drop_last());
    }
}

/// Once reading failed, later lines change nothing.
proof fn lemma_failed_stays(ls: Seq<Seq<char>>, n: int)
    requires
        0 <= n <= ls.len(),
        parse_lines(ls.take(n)).failed,
    ensures
        parse_lines(ls) == parse_lines(ls.take(n)),
    decreases ls.len() - n,
{
    if n < ls.len() {
        assert(ls.take(n + 1).drop_last() =~= ls.take(n));
        lemma_failed_stays(ls, n + 1);
    } else {
        assert(ls.take(n) =~= ls);
    }
}

/// Line `k` of the report `ls` lies in its Audio section: a line at or before
/// it mentions `Audio`, and no line after that one, up to line `k`, mentions
/// `Video` or `Settings`.
pub open spec fn in_audio_section(ls: Seq<Seq<char>>, k: int) -> bool {
    exists|j: int|
        0 <= j <= k && #[trigger] contains_seq(ls[j], "Audio"@) && forall|m: int|
            j < m <= k ==> !contains_seq(#[trigger] ls[m], "Video"@) && !contains_seq(ls[m], "Settings"@)
}

/// Whether a line lies in the Audio section depends only on the lines up to it.
proof fn lemma_in_audio_section_prefix(ls: Seq<Seq<char>>, n: int, k: int)
    requires
        0 <= k < n <= ls.len(),
    ensures
        in_audio_section(ls.take(n), k) == in_audio_section(ls, k),
{
    let t = ls.take(n);
    if in_audio_section(t, k) {
        let j = choose|j: int|
            0 <= j <= k && #[trigger] contains_seq(t[j], "Audio"@) && forall|m: int|
                j < m <= k ==> !contains_seq(#[trigger] t[m], "Video"@) && !contains_seq(t[m], "Settings"@);
        assert(contains_seq(ls[j], "Audio"@));
        assert forall|m: int| j < m <= k implies !contains_seq(#[trigger] ls[m], "Video"@) && !contains_seq(
            ls[m],
            "Settings"@,
        ) by {
            assert(t[m] == ls[m]);
        }
    }
    if in_audio_section(ls, k) {
        let j = choose|j: int|
            0 <= j <= k && #[trigger] contains_seq(ls[j], "Audio"@) && forall|m: int|
                j < m <= k ==> !contains_seq(#[trigger] ls[m], "Video"@) && !contains_seq(ls[m], "Settings"@);
        assert(contains_seq(t[j], "Audio"@));
        assert forall|m: int| j < m <= k implies !contains_seq(#[trigger] t[m], "Video"@) && !contains_seq(
            t[m],
            "Settings"@,
        ) by {
            assert(t[m] == ls[m]);
        }
    }
}

/// While reading goes on, the reader is in the Audio section exactly when the
/// last line read lies in it.
proof fn lemma_section_is_audio(ls: Seq<Seq<char>>)
    requires
        ls.len() > 0,
        !parse_lines(ls).failed,
    ensures
        (parse_lines(ls).section == Section::Audio) == in_audio_section(ls, ls.len() - 1),
    decreases ls.len(),
{
    let init = ls.drop_last();
    let last = ls.last();
    let n = ls.len() - 1;
    assert(init =~= ls.take(n));
    if contains_seq(last, "Audio"@) {
        assert(contains_seq(ls[n], "Audio"@));
    } else if contains_seq(last, "Video"@) || contains_seq(last, "Settings"@) {
        if in_audio_section(ls, n) {
            let j = choose|j: int|
                0 <= j <= n && #[trigger] contains_seq(ls[j], "Audio"@) && forall|m: int|
                    j < m <= n ==> !contains_seq(#[trigger] ls[m], "Video"@) && !contains_seq(ls[m], "Settings"@);
            if j < n {
                assert(!contains_seq(ls[n], "Video"@) && !contains_seq(ls[n], "Settings"@));
            }
        }
    } else {
        if n == 0 {
            if in_audio_section(ls, n) {
                let j = choose|j: int|
                    0 <= j <= n && #[trigger] contains_seq(ls[j], "Audio"@) && forall|m: int|
                        j < m <= n ==> !contains_seq(#[trigger] ls[m], "Video"@) && !contains_seq(ls[m], "Settings"@);
                assert(j == 0);
            }
        } else {
            lemma_section_is_audio(init);
            lemma_in_audio_section_prefix(ls, n, n - 1);
            if in_audio_section(ls, n) {
                let j = choose|j: int|
                    0 <= j <= n && #[trigger] contains_seq(ls[j], "Audio"@) && forall|m: int|
                        j < m <= n ==> !contains_seq(#[trigger] ls[m], "Video"@) && !contains_seq(ls[m], "Settings"@);
                assert(j < n);
                assert forall|m: int| j < m <= n - 1 implies !contains_seq(#[trigger] ls[m], "Video"@)
                    && !contains_seq(ls[m], "Settings"@) by {}
                assert(in_audio_section(ls, n - 1));
            }
            if in_audio_section(ls, n - 1) {
                let j = choose|j: int|
                    0 <= j <= n - 1 && #[trigger] contains_seq(ls[j], "Audio"@) && forall|m: int|
                        j < m <= n - 1 ==> !contains_seq(#[trigger] ls[m], "Video"@) && !contains_seq(
                            ls[m],
                            "Settings"@,
                        );
                assert forall|m: int| j < m <= n implies !contains_seq(#[trigger] ls[m], "Video"@) && !contains_seq(
                    ls[m],
                    "Settings"@,
                ) by {
                    if m == n {
                        assert(ls[m] == last);
                    }
                }
                assert(in_audio_section(ls, n));
            }
        }
    }
}

/// Every sink and source comes from a device line in the Audio section of
/// the report, with the name that line gives; lines in the Video or Settings
/// sections never yield one.
pub proof fn lemma_devices_come_from_audio_section(ls: Seq<Seq<char>>)
    ensures
        forall|id: i32|
            #[trigger] parse_lines(ls).sinks.contains_key(id) ==> exists|k: int|
                0 <= k < ls.len() && in_audio_section(ls, k) && #[trigger] entry_of(ls[k]) == EntryView::Entry(
                    id,
                    parse_lines(ls).sinks[id],
                ),
        forall|id: i32|
            #[trigger] parse_lines(ls).sources.contains_key(id) ==> exists|k: int|
                0 <= k < ls.len() && in_audio_section(ls, k) && #[trigger] entry_of(ls[k]) == EntryView::Entry(
                    id,
                    parse_lines(ls).sources[id],
                ),
    decreases ls.len(),
{
    if ls.len() > 0 {
        let init = ls.drop_last();
        let n = ls.len() - 1;
        let st = parse_lines(init);
        let now = parse_lines(ls);
        lemma_devices_come_from_audio_section(init);
        assert(init =~= ls.take(n));
        if !now.failed {
            lemma_section_is_audio(ls);
        }
        assert forall|id: i32| #[trigger] now.sinks.contains_key(id) implies exists|k: int|
            0 <= k < ls.len() && in_audio_section(ls, k) && #[trigger] entry_of(ls[k]) == EntryView::Entry(
                id,
                now.sinks[id],
            ) by {
            if st.sinks.contains_key(id) && now.sinks[id] == st.sinks[id] {
                let k = choose|k: int|
                    0 <= k < init.len() && in_audio_section(init, k) && #[trigger] entry_of(init[k])
                        == EntryView::Entry(id, st.sinks[id]);
                lemma_in_audio_section_prefix(ls, n, k);
                assert(entry_of(ls[k]) == EntryView::Entry(id, now.sinks[id]));
            } else {
                assert(entry_of(ls[n]) == EntryView::Entry(id, now.sinks[id]));
            }
        }
        assert forall|id: i32| #[trigger] now.sources.contains_key(id) implies exists|k: int|
            0 <= k < ls.len() && in_audio_section(ls, k) && #[trigger] entry_of(ls[k]) == EntryView::Entry(
                id,
                now.sources[id],
            ) by {
            if st.sources.contains_key(id) && now.sources[id] == st.sources[id] {
                let k = choose|k: int|
                    0 <= k < init.len() && in_audio_section(init, k) && #[trigger] entry_of(init[k])
                        == EntryView::Entry(id, st.sources[id]);
                lemma_in_audio_section_prefix(ls, n, k);
                assert(entry_of(ls[k]) == EntryView::Entry(id, now.sources[id]));
            } else {
                assert(entry_of(ls[n]) == EntryView::Entry(id, now.sources[id]));
            }
        }
    }
}

} // verus!
