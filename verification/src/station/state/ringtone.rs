//! The ringtones of the station: the MP3 files of the ringtone directory and
//! the one chosen for incoming calls.
use std::collections::hash_map::DefaultHasher;
use std::hash::{Hash, Hasher};
use std::path::Path;
use vstd::prelude::*;
use vstd::multiset::Multiset;
use vstd::string::StringExecFns;

use crate::text::{
    join_dir, join_path, lemma_lex_total_ordering, chars_eq_ignore_ascii_case, chars_le, chars_of, eq_ignore_ascii_case, last_index, lemma_lex_total,
    lemma_lex_trans, lex_le, rfind_char, string_from_chars, sub_chars, view_strings,
};

verus! {

broadcast use vstd::seq_lib::group_to_multiset_ensures;

/// The persisted ringtone choice.
pub struct AudioConfig {
    pub ringtone_path: Option<String>,
}

/// A ringtone that can be chosen.
pub struct RingtoneItem {
    pub ringtone_id: i32,
    pub ringtone_name: String,
    pub ringtone_path: String,
}

pub struct RingtoneItemView {
    pub id: i32,
    pub name: Seq<char>,
    pub path: Seq<char>,
}

impl View for RingtoneItem {
    type V = RingtoneItemView;

    open spec fn view(&self) -> RingtoneItemView {
        RingtoneItemView { id: self.ringtone_id, name: self.ringtone_name@, path: self.ringtone_path@ }
    }
}

/// Why a ringtone operation failed.
#[derive(Clone, Copy, Debug, PartialEq, Eq, Structural)]
pub enum RingtoneError {
    /// The ringtone directory does not exist.
    DirectoryNotFound,
    /// No ringtone has the requested id.
    UnknownRingtoneId,
}

/// What `char::to_uppercase` yields for `c`.
pub uninterp spec fn to_uppercase_chars(c: char) -> Seq<char>;

/// The upper case of an ASCII character: `a` to `z` become `A` to `Z`, every
/// other ASCII character stays.
pub open spec fn ascii_upper(c: char) -> char {
    if 97 <= (c as u32) <= 122 {
        ((c as u32) - 32) as char
    } else {
        c
    }
}

/// What upper-casing `c` gives: spelled out for ASCII, named otherwise.
pub open spec fn upper_case_chars(c: char) -> Seq<char> {
    if (c as u32) < 128 {
        seq![ascii_upper(c)]
    } else {
        to_uppercase_chars(c)
    }
}

/// `char::to_uppercase`, collected into a `String`. Its result is named by
/// [`to_uppercase_chars`]: the Unicode upper-case mapping of `c` depends on `c`
/// alone. Only its ASCII part is spelled out: `a` to `z` map to `A` to `Z`,
/// other ASCII characters map to themselves.
#[verifier::external_body]
fn char_to_uppercase(c: char) -> (r: String)
    ensures
        r@ == to_uppercase_chars(c),
        (c as u32) < 128 ==> r@ == seq![ascii_upper(c)],
{
    c.to_uppercase().to_string()
}

/// `<Path as Hash>::hash`: feeds the path `path` into `hasher`. What it feeds
/// depends on the machine's word size, so nothing is stated of it.
#[verifier::external_body]
fn hash_path(path: &str, hasher: &mut DefaultHasher) {
    Path::new(path).hash(hasher)
}

/// The id derived from a hash: its low 31 bits, so never negative.
pub fn stable_id_from_hash(hash: u64) -> (r: i32)
    ensures
        r as int == (hash & 0x7FFF_FFFFu64) as int,
        r >= 0,
{
    let low = hash & 0x7FFF_FFFFu64;
    assert(low <= 0x7FFF_FFFFu64) by (bit_vector)
        requires
            low == hash & 0x7FFF_FFFFu64,
    ;
    low as i32
}

/// An id for the ringtone at `path`, from the path's hash. The hash depends on
/// the machine, so all that is stated is that the id is not negative.
pub fn calculate_stable_id(path: &str) -> (r: i32)
    ensures
        r >= 0,
{
    let mut hasher = DefaultHasher::new();
    hash_path(path, &mut hasher);
    stable_id_from_hash(hasher.finish())
}

/// The file of the ringtone choice and the ringtone directory below the
/// project directory `base_dir`: `internal/ringtone.json` and
/// `assets/audio/ringtones`.
pub fn setup_path(base_dir: &str) -> (r: (String, String))
    ensures
        r.0@ == join_path(join_path(base_dir@, "internal"@), "ringtone.json"@),
        r.1@ == join_path(join_path(join_path(base_dir@, "assets"@), "audio"@), "ringtones"@),
{
    let internal = join_dir(base_dir, "internal");
    let config_path = join_dir(internal.as_str(), "ringtone.json");
    let assets = join_dir(base_dir, "assets");
    let audio = join_dir(assets.as_str(), "audio");
    let ringtone_dir = join_dir(audio.as_str(), "ringtones");
    (config_path, ringtone_dir)
}

/// A name that a directory listing can hold.
pub open spec fn is_entry_name(name: Seq<char>) -> bool {
    &&& name.len() > 0
    &&& !name.contains('/')
    &&& name != "."@
    &&& name != ".."@
}

/// A file name split at its last dot into stem and extension; a name
/// without a dot, or whose only dot leads it, has no extension.
pub open spec fn split_at_dot(name: Seq<char>) -> (Seq<char>, Option<Seq<char>>) {
    match last_index(name, '.') {
        None => (name, None),
        Some(k) => if k == 0 {
            (name, None)
        } else {
            (name.subrange(0, k), Some(name.subrange(k + 1, name.len() as int)))
        },
    }
}

/// An MP3 file: its extension is `mp3` in any case.
pub open spec fn is_ringtone_name(name: Seq<char>) -> bool {
    match split_at_dot(name).1 {
        Some(ext) => eq_ignore_ascii_case(ext, "mp3"@),
        None => false,
    }
}

/// The name shown for a ringtone: its stem with the first character in upper case.
pub open spec fn formatted_name(stem: Seq<char>) -> Seq<char> {
    if stem.len() == 0 {
        stem
    } else {
        upper_case_chars(stem[0]) + stem.drop_first()
    }
}

/// The ringtones among the directory entries `names`, in their order: shown
/// name and path of each MP3 file.
pub open spec fn ringtone_files(dir: Seq<char>, names: Seq<Seq<char>>) -> Seq<(Seq<char>, Seq<char>)>
    decreases names.len(),
{
    if names.len() == 0 {
        seq![]
    } else {
        let rest = ringtone_files(dir, names.drop_last());
        let name = names.last();
        if is_ringtone_name(name) {
            rest.push((formatted_name(split_at_dot(name).0), join_path(dir, name)))
        } else {
            rest
        }
    }
}

pub open spec fn is_sorted(s: Seq<Seq<char>>) -> bool {
    forall|a: int, b: int| 0 <= a < b < s.len() ==> lex_le(#[trigger] s[a], #[trigger] s[b])
}

/// `sorted` is `names` in lexicographic order.
pub open spec fn sorted_permutation(sorted: Seq<Seq<char>>, names: Seq<Seq<char>>) -> bool {
    is_sorted(sorted) && sorted.to_multiset() == names.to_multiset()
}

/// The ringtone list holds `files` in order, each with a non-negative id.
pub open spec fn lists_files(rs: Seq<RingtoneItemView>, files: Seq<(Seq<char>, Seq<char>)>) -> bool {
    &&& rs.len() == files.len()
    &&& forall|k: int| 0 <= k < rs.len() ==> (#[trigger] rs[k]).name == files[k].0 && rs[k].path == files[k].1 && rs[k].id >= 0
}

/// Index of the first ringtone at `path`.
pub open spec fn find_by_path(rs: Seq<RingtoneItemView>, path: Seq<char>) -> Option<int>
    decreases rs.len(),
{
    if rs.len() == 0 {
        None
    } else if rs[0].path == path {
        Some(0)
    } else {
        match find_by_path(rs.drop_first(), path) {
            Some(i) => Some(i + 1),
            None => None,
        }
    }
}

/// Index of the first ringtone with id `id`.
pub open spec fn find_by_id(rs: Seq<RingtoneItemView>, id: i32) -> Option<int>
    decreases rs.len(),
{
    if rs.len() == 0 {
        None
    } else if rs[0].id == id {
        Some(0)
    } else {
        match find_by_id(rs.drop_first(), id) {
            Some(i) => Some(i + 1),
            None => None,
        }
    }
}

/// The chosen ringtone is none, or one of the listed ringtones.
pub open spec fn choice_listed(choice: Option<Seq<char>>, rs: Seq<RingtoneItemView>) -> bool {
    match choice {
        Some(p) => find_by_path(rs, p) is Some,
        None => true,
    }
}

/// The id of the chosen ringtone; `-1` when none is chosen or the choice is not listed.
pub open spec fn chosen_id(choice: Option<Seq<char>>, rs: Seq<RingtoneItemView>) -> i32 {
    match choice {
        Some(p) => match find_by_path(rs, p) {
            Some(i) => rs[i].id,
            None => -1i32,
        },
        None => -1i32,
    }
}

/// The choice after checking it against the list: a path that is not listed is dropped.
pub open spec fn validated_choice(choice: Option<Seq<char>>, rs: Seq<RingtoneItemView>) -> Option<Seq<char>> {
    if choice_listed(choice, rs) {
        choice
    } else {
        None
    }
}

pub open spec fn unassigned_ringtone() -> RingtoneItemView {
    RingtoneItemView { id: -1i32, name: "Unassigned"@, path: Seq::empty() }
}

pub open spec fn view_ringtones(s: Seq<RingtoneItem>) -> Seq<RingtoneItemView> {
    s.map_values(|r: RingtoneItem| r@)
}

pub open spec fn opt_string_view(o: Option<String>) -> Option<Seq<char>> {
    match o {
        Some(s) => Some(s@),
        None => None,
    }
}

proof fn lemma_find_by_path(rs: Seq<RingtoneItemView>, path: Seq<char>, i: int)
    requires
        0 <= i <= rs.len(),
        forall|k: int| 0 <= k < i ==> (#[trigger] rs[k]).path != path,
    ensures
        i < rs.len() && rs[i].path == path ==> find_by_path(rs, path) == Some(i),
        i == rs.len() ==> find_by_path(rs, path) is None,
    decreases i,
{
    if i > 0 {
        lemma_find_by_path(rs.drop_first(), path, i - 1);
    }
}

proof fn lemma_find_by_id(rs: Seq<RingtoneItemView>, id: i32, i: int)
    requires
        0 <= i <= rs.len(),
        forall|k: int| 0 <= k < i ==> (#[trigger] rs[k]).id != id,
    ensures
        i < rs.len() && rs[i].id == id ==> find_by_id(rs, id) == Some(i),
        i == rs.len() ==> find_by_id(rs, id) is None,
    decreases i,
{
    if i > 0 {
        lemma_find_by_id(rs.drop_first(), id, i - 1);
    }
}

proof fn lemma_find_bounds(rs: Seq<RingtoneItemView>, path: Seq<char>, id: i32)
    ensures
        find_by_path(rs, path) matches Some(i) ==> 0 <= i < rs.len() && rs[i].path == path,
        find_by_id(rs, id) matches Some(i) ==> 0 <= i < rs.len() && rs[i].id == id,
    decreases rs.len(),
{
    if rs.len() > 0 {
        lemma_find_bounds(rs.drop_first(), path, id);
    }
}

/// Every ringtone of `new` whose path `old` lists keeps the id it had there.
pub open spec fn keeps_ids(old: Seq<RingtoneItemView>, new: Seq<RingtoneItemView>) -> bool {
    forall|k: int|
        0 <= k < new.len() ==> match find_by_path(old, (#[trigger] new[k]).path) {
            Some(j) => new[k].id == old[j].id,
            None => true,
        }
}

/// The position of the first ringtone at `path` in `items`.
fn position_in(items: &Vec<RingtoneItem>, path: &String) -> (r: Option<usize>)
    ensures
        match r {
            Some(i) => find_by_path(view_ringtones(items@), path@) == Some(i as int) && i < items@.len(),
            None => find_by_path(view_ringtones(items@), path@) is None,
        },
{
    let ghost rs = view_ringtones(items@);
    let mut i: usize = 0;
    while i < items.len()
        invariant
            i <= items@.len(),
            rs == view_ringtones(items@),
            forall|k: int| 0 <= k < i ==> (#[trigger] rs[k]).path != path@,
        decreases items@.len() - i,
    {
        if items[i].ringtone_path == *path {
            proof {
                lemma_find_by_path(rs, path@, i as int);
            }
            return Some(i);
        }
        i = i + 1;
    }
    proof {
        lemma_find_by_path(rs, path@, i as int);
    }
    None
}

/// The names in lexicographic order.
fn sort_names(names: Vec<String>) -> (r: Vec<String>)
    ensures
        sorted_permutation(view_strings(r@), view_strings(names@)),
{
    let ghost all = view_strings(names@);
    let mut rem = names;
    let mut res: Vec<String> = Vec::new();
    proof {
        assert(view_strings(res@) =~= Seq::<Seq<char>>::empty());
        assert(view_strings(res@).to_multiset() =~= Multiset::<Seq<char>>::empty());
    }
    while rem.len() > 0
        invariant
            is_sorted(view_strings(res@)),
            forall|a: int, b: int| 0 <= a < res@.len() && 0 <= b < rem@.len() ==> lex_le(#[trigger] res@[a]@, #[trigger] rem@[b]@),
            view_strings(res@).to_multiset().add(view_strings(rem@).to_multiset()) == all.to_multiset(),
        decreases rem@.len(),
    {
        // The position of a least name.
        let mut m: usize = 0;
        let mut k: usize = 1;
        proof {
            lemma_lex_total(rem@[0]@, rem@[0]@);
        }
        while k < rem.len()
            invariant
                0 <= m < k <= rem@.len(),
                forall|j: int| 0 <= j < k ==> lex_le(rem@[m as int]@, #[trigger] rem@[j]@),
            decreases rem@.len() - k,
        {
            let a = chars_of(rem[m].as_str());
            let b = chars_of(rem[k].as_str());
            if !chars_le(a.as_slice(), b.as_slice()) {
                proof {
                    lemma_lex_total(rem@[m as int]@, rem@[k as int]@);
                    assert forall|j: int| 0 <= j < k + 1 implies lex_le(rem@[k as int]@, #[trigger] rem@[j]@) by {
                        if j < k {
                            lemma_lex_trans(rem@[k as int]@, rem@[m as int]@, rem@[j]@);
                        } else {
                            lemma_lex_total(rem@[k as int]@, rem@[k as int]@);
                        }
                    }
                }
                m = k;
            } else {
                proof {
                    assert forall|j: int| 0 <= j < k + 1 implies lex_le(rem@[m as int]@, #[trigger] rem@[j]@) by {
                        if j == k {
                        }
                    }
                }
            }
            k = k + 1;
        }
        let ghost old_rem = rem@;
        let ghost old_res = res@;
        let x = rem.remove(m);
        proof {
            assert(view_strings(rem@) =~= view_strings(old_rem).remove(m as int));
            assert(view_strings(old_rem)[m as int] == x@);
            assert(view_strings(rem@).to_multiset() == view_strings(old_rem).to_multiset().remove(x@));
        }
        res.push(x);
        proof {
            assert(view_strings(res@) =~= view_strings(old_res).push(x@));
            assert(view_strings(res@).to_multiset() == view_strings(old_res).to_multiset().insert(x@));
            assert(view_strings(old_rem).to_multiset().count(x@) > 0) by {
                assert(view_strings(old_rem).contains(x@));
            }
            assert(view_strings(res@).to_multiset().add(view_strings(rem@).to_multiset()) =~= all.to_multiset());
            assert forall|a: int, b: int| 0 <= a < b < view_strings(res@).len() implies lex_le(
                #[trigger] view_strings(res@)[a],
                #[trigger] view_strings(res@)[b],
            ) by {
                if b == old_res.len() {
                    assert(lex_le(old_res[a]@, old_rem[m as int]@));
                }
            }
            assert forall|a: int, b: int| 0 <= a < res@.len() && 0 <= b < rem@.len() implies lex_le(
                #[trigger] res@[a]@,
                #[trigger] rem@[b]@,
            ) by {
                let ob = if b < m { b } else { b + 1 };
                assert(rem@[b] == old_rem[ob]);
                if a == old_res.len() {
                    assert(lex_le(old_rem[m as int]@, old_rem[ob]@));
                } else {
                    assert(lex_le(old_res[a]@, old_rem[ob]@));
                }
            }
        }
    }
    proof {
        assert(view_strings(rem@) =~= Seq::<Seq<char>>::empty());
        assert(view_strings(rem@).to_multiset() =~= Multiset::<Seq<char>>::empty());
        assert(view_strings(res@).to_multiset() =~= all.to_multiset());
    }
    res
}

/// The shown name for a file stem: the first character in upper case.
fn format_name(stem: &[char]) -> (r: String)
    ensures
        r@ == formatted_name(stem@),
{
    if stem.len() == 0 {
        return String::new();
    }
    let mut name = char_to_uppercase(stem[0]);
    let rest = sub_chars(stem, 1, stem.len());
    let rest = string_from_chars(rest.as_slice());
    name.append(rest.as_str());
    assert(stem@.subrange(1, stem@.len() as int) =~= stem@.drop_first());
    name
}

/// The ringtones of the station and the chosen one.
pub struct RingtoneManager {
    internal_audio_config: AudioConfig,
    ringtones: Vec<RingtoneItem>,
    ringtone_dir: String,
}

impl RingtoneManager {
    /// Ringtone ids are never negative.
    #[verifier::type_invariant]
    spec fn inv(self) -> bool {
        forall|k: int| 0 <= k < self.ringtones@.len() ==> (#[trigger] self.ringtones@[k]).ringtone_id >= 0
    }

    /// The path of the chosen ringtone, if any.
    pub closed spec fn choice(&self) -> Option<Seq<char>> {
        opt_string_view(self.internal_audio_config.ringtone_path)
    }

    /// The ringtones found in the directory, in order.
    pub closed spec fn ringtones(&self) -> Seq<RingtoneItemView> {
        view_ringtones(self.ringtones@)
    }

    /// The ringtone directory.
    pub closed spec fn dir(&self) -> Seq<char> {
        self.ringtone_dir@
    }

    /// The ringtones hold the MP3 files among the directory entries `es`, in
    /// name order.
    pub open spec fn lists_entries(&self, es: Seq<Seq<char>>) -> bool {
        exists|s: Seq<Seq<char>>|
            #![trigger sorted_permutation(s, es)]
            sorted_permutation(s, es) && lists_files(self.ringtones(), ringtone_files(self.dir(), s))
    }

    /// The ringtones after reading the directory entries `entries` (`None` when
    /// the directory does not exist).
    pub open spec fn lists_dir(&self, entries: Option<Vec<String>>) -> bool {
        match entries {
            Some(es) => self.lists_entries(view_strings(es@)),
            None => self.ringtones().len() == 0,
        }
    }

    /// The manager of the ringtone directory `ringtone_dir` whose entries are
    /// `dir_entries` (`None` when the directory does not exist), with the
    /// choice read from disk. A chosen ringtone that is not in the directory is
    /// dropped; the flag says whether the choice changed that way and has to be
    /// written back.
    pub fn new(config: AudioConfig, ringtone_dir: &str, dir_entries: Option<Vec<String>>) -> (r: Result<(Self, bool), RingtoneError>)
        requires
            dir_entries matches Some(es) ==> forall|k: int| 0 <= k < es@.len() ==> is_entry_name(#[trigger] es@[k]@),
        ensures
            match r {
                Ok((m, changed)) => {
                    &&& dir_entries is Some
                    &&& m.dir() == ringtone_dir@
                    &&& m.lists_dir(dir_entries)
                    &&& m.choice() == validated_choice(opt_string_view(config.ringtone_path), m.ringtones())
                    &&& changed == !choice_listed(opt_string_view(config.ringtone_path), m.ringtones())
                },
                Err(e) => dir_entries is None && e == RingtoneError::DirectoryNotFound,
            },
    {
        let mut manager = RingtoneManager {
            internal_audio_config: config,
            ringtones: Vec::new(),
            ringtone_dir: ringtone_dir.to_owned(),
        };
        match manager.fetch_ringtone_files(dir_entries) {
            Ok(()) => {},
            Err(e) => return Err(e),
        }
        let changed = manager.validate_internal_audio_config();
        Ok((manager, changed))
    }

    /// The choice, for writing it back to disk.
    pub fn audio_config(&self) -> (r: &AudioConfig)
        ensures
            opt_string_view(r.ringtone_path) == self.choice(),
    {
        &self.internal_audio_config
    }

    /// The ringtone directory.
    pub fn ringtone_dir(&self) -> (r: &str)
        ensures
            r@ == self.dir(),
    {
        self.ringtone_dir.as_str()
    }

    /// Lists the ringtones anew from the directory entries `dir_entries`
    /// (`None` when the directory does not exist): every MP3 file, in name
    /// order, named by its stem with an upper-case first character. A path
    /// that was listed before keeps its id; a new path gets the id of its hash.
    pub fn fetch_ringtone_files(&mut self, dir_entries: Option<Vec<String>>) -> (r: Result<(), RingtoneError>)
        requires
            dir_entries matches Some(es) ==> forall|k: int| 0 <= k < es@.len() ==> is_entry_name(#[trigger] es@[k]@),
        ensures
            final(self).choice() == old(self).choice(),
            final(self).dir() == old(self).dir(),
            final(self).lists_dir(dir_entries),
            r is Ok <==> dir_entries is Some,
            r is Err ==> r == Err::<(), RingtoneError>(RingtoneError::DirectoryNotFound),
            keeps_ids(old(self).ringtones(), final(self).ringtones()),
    {
        proof {
            use_type_invariant(&*self);
        }
        let mut previous: Vec<RingtoneItem> = Vec::new();
        std::mem::swap(&mut previous, &mut self.ringtones);
        let ghost prev = view_ringtones(previous@);
        assert(prev == old(self).ringtones());
        let names = match dir_entries {
            Some(names) => names,
            None => {
                assert(self.ringtones() =~= Seq::<RingtoneItemView>::empty());
                return Err(RingtoneError::DirectoryNotFound);
            },
        };
        let ghost es = view_strings(names@);
        let sorted = sort_names(names);
        let ghost s = view_strings(sorted@);
        proof {
            assert forall|k: int| 0 <= k < s.len() implies is_entry_name(#[trigger] s[k]) by {
                assert(s.to_multiset().count(s[k]) > 0);
                assert(es.contains(s[k]));
            }
        }
        let mp3 = chars_of("mp3");
        let mut listed: Vec<RingtoneItem> = Vec::new();
        let mut i: usize = 0;
        while i < sorted.len()
            invariant
                i <= sorted@.len(),
                s == view_strings(sorted@),
                mp3@ == "mp3"@,
                lists_files(view_ringtones(listed@), ringtone_files(self.ringtone_dir@, s.take(i as int))),
                self.choice() == old(self).choice(),
                self.dir() == old(self).dir(),
                prev == view_ringtones(previous@),
                prev == old(self).ringtones(),
                forall|k: int| 0 <= k < previous@.len() ==> (#[trigger] previous@[k]).ringtone_id >= 0,
                keeps_ids(prev, view_ringtones(listed@)),
            decreases sorted@.len() - i,
        {
            proof {
                assert(s.take(i + 1).drop_last() =~= s.take(i as int));
                assert(s.take(i + 1).last() == s[i as int]);
            }
            let name = sorted[i].as_str();
            let chars = chars_of(name);
            match rfind_char(chars.as_slice(), '.') {
                Some(k) => {
                    if k > 0 {
                        assert(k < chars.len());
                        let ext = sub_chars(chars.as_slice(), k + 1, chars.len());
                        if chars_eq_ignore_ascii_case(ext.as_slice(), mp3.as_slice()) {
                            let stem = sub_chars(chars.as_slice(), 0, k);
                            let ringtone_name = format_name(stem.as_slice());
                            let ringtone_path = join_dir(self.ringtone_dir.as_str(), name);
                            // A path listed before keeps its id.
                            let ringtone_id = match position_in(&previous, &ringtone_path) {
                                Some(j) => previous[j].ringtone_id,
                                None => calculate_stable_id(ringtone_path.as_str()),
                            };
                            let ghost before = view_ringtones(listed@);
                            listed.push(RingtoneItem { ringtone_id, ringtone_name, ringtone_path });
                            assert(view_ringtones(listed@) =~= before.push(listed@.last()@));
                        }
                    }
                },
                None => {},
            }
            i = i + 1;
        }
        proof {
            let ls = view_ringtones(listed@);
            assert forall|k: int| 0 <= k < listed@.len() implies (#[trigger] listed@[k]).ringtone_id >= 0 by {
                assert(ls[k].id >= 0);
            }
        }
        self.ringtones = listed;
        proof {
            assert(s.take(s.len() as int) =~= s);
            assert(sorted_permutation(s, es));
            assert(lists_files(self.ringtones(), ringtone_files(self.dir(), s)));
            let t = s;
            assert(sorted_permutation(t, es) && lists_files(self.ringtones(), ringtone_files(self.dir(), t)));
            assert(self.lists_entries(es));
        }
        Ok(())
    }

    /// Drops the chosen ringtone when it is not listed; answers whether it did.
    pub fn validate_internal_audio_config(&mut self) -> (r: bool)
        ensures
            final(self).ringtones() == old(self).ringtones(),
            final(self).dir() == old(self).dir(),
            final(self).choice() == validated_choice(old(self).choice(), old(self).ringtones()),
            r == !choice_listed(old(self).choice(), old(self).ringtones()),
            choice_listed(final(self).choice(), final(self).ringtones()),
    {
        proof {
            use_type_invariant(&*self);
        }
        let listed = match &self.internal_audio_config.ringtone_path {
            Some(path) => self.position_of_path(path).is_some(),
            None => true,
        };
        if !listed {
            self.internal_audio_config.ringtone_path = None;
            return true;
        }
        false
    }

    fn position_of_path(&self, path: &String) -> (r: Option<usize>)
        ensures
            match r {
                Some(i) => find_by_path(self.ringtones(), path@) == Some(i as int) && i < self.ringtones@.len(),
                None => find_by_path(self.ringtones(), path@) is None,
            },
    {
        position_in(&self.ringtones, path)
    }

    fn position_of_id(&self, id: i32) -> (r: Option<usize>)
        ensures
            match r {
                Some(i) => find_by_id(self.ringtones(), id) == Some(i as int) && i < self.ringtones@.len(),
                None => find_by_id(self.ringtones(), id) is None,
            },
    {
        let mut i: usize = 0;
        while i < self.ringtones.len()
            invariant
                i <= self.ringtones@.len(),
                forall|k: int| 0 <= k < i ==> (#[trigger] self.ringtones()[k]).id != id,
            decreases self.ringtones@.len() - i,
        {
            if self.ringtones[i].ringtone_id == id {
                proof {
                    lemma_find_by_id(self.ringtones(), id, i as int);
                }
                return Some(i);
            }
            i = i + 1;
        }
        proof {
            lemma_find_by_id(self.ringtones(), id, i as int);
        }
        None
    }

    /// The choices for the UI: "Unassigned" first, then every ringtone.
    pub fn get_ringtone_model(&self) -> (r: Vec<RingtoneItem>)
        ensures
            view_ringtones(r@) == seq![unassigned_ringtone()] + self.ringtones(),
    {
        let mut model: Vec<RingtoneItem> = Vec::new();
        model.push(RingtoneItem { ringtone_id: -1, ringtone_name: "Unassigned".to_owned(), ringtone_path: String::new() });
        let mut i: usize = 0;
        while i < self.ringtones.len()
            invariant
                i <= self.ringtones@.len(),
                model@.len() == i + 1,
                model@[0]@ == unassigned_ringtone(),
                forall|k: int| 1 <= k <= i ==> (#[trigger] model@[k])@ == self.ringtones()[k - 1],
            decreases self.ringtones@.len() - i,
        {
            let item = &self.ringtones[i];
            model.push(RingtoneItem {
                ringtone_id: item.ringtone_id,
                ringtone_name: item.ringtone_name.clone(),
                ringtone_path: item.ringtone_path.clone(),
            });
            i = i + 1;
        }
        assert(view_ringtones(model@) =~= seq![unassigned_ringtone()] + self.ringtones());
        model
    }

    /// The id of the chosen ringtone; `-1` when none is chosen or it is not listed.
    pub fn get_ringtone_id(&self) -> (r: i32)
        ensures
            r == chosen_id(self.choice(), self.ringtones()),
    {
        match &self.internal_audio_config.ringtone_path {
            Some(path) => match self.position_of_path(path) {
                Some(i) => self.ringtones[i].ringtone_id,
                None => -1,
            },
            None => -1,
        }
    }

    /// The path of the chosen ringtone, if any.
    pub fn get_ringtone_path(&self) -> (r: Option<&str>)
        ensures
            match r {
                Some(p) => self.choice() == Some(p@),
                None => self.choice() is None,
            },
    {
        match &self.internal_audio_config.ringtone_path {
            Some(path) => Some(path.as_str()),
            None => None,
        }
    }

    /// What choosing ringtone `id` (`-1` for none) after listing the directory
    /// entries `dir_entries` leads to, from this manager to `after` with result
    /// `r`: the list is read anew; an id that is not listed is refused and
    /// leaves the choice as it was.
    pub open spec fn chose_ringtone(
        &self,
        after: &Self,
        id: i32,
        dir_entries: Option<Vec<String>>,
        r: Result<(), RingtoneError>,
    ) -> bool {
        &&& after.dir() == self.dir()
        &&& after.lists_dir(dir_entries)
        &&& keeps_ids(self.ringtones(), after.ringtones())
        &&& match r {
            Ok(()) => {
                &&& dir_entries is Some
                &&& id == -1 ==> after.choice() is None
                &&& id != -1 ==> (find_by_id(after.ringtones(), id) matches Some(i)
                    && after.choice() == Some(after.ringtones()[i].path))
            },
            Err(e) => {
                ||| (dir_entries is None && e == RingtoneError::DirectoryNotFound && after.choice() == self.choice())
                ||| (dir_entries is Some && id != -1 && find_by_id(after.ringtones(), id) is None
                    && e == RingtoneError::UnknownRingtoneId && after.choice() == self.choice())
            },
        }
        &&& r is Ok ==> choice_listed(after.choice(), after.ringtones())
    }

    /// Lists the ringtones anew from `dir_entries`, then chooses ringtone `id`
    /// (`-1` for none). An id that is not listed is refused and leaves the choice
    /// as it was.
    pub fn set_ringtone_id(&mut self, id: i32, dir_entries: Option<Vec<String>>) -> (r: Result<(), RingtoneError>)
        requires
            dir_entries matches Some(es) ==> forall|k: int| 0 <= k < es@.len() ==> is_entry_name(#[trigger] es@[k]@),
        ensures
            old(self).chose_ringtone(&*final(self), id, dir_entries, r),
    {
        match self.fetch_ringtone_files(dir_entries) {
            Ok(()) => {},
            Err(e) => return Err(e),
        }
        proof {
            use_type_invariant(&*self);
        }
        if id == -1 {
            self.internal_audio_config.ringtone_path = None;
        } else {
            match self.position_of_id(id) {
                Some(i) => {
                    let path = self.ringtones[i].ringtone_path.clone();
                    self.internal_audio_config.ringtone_path = Some(path);
                },
                None => return Err(RingtoneError::UnknownRingtoneId),
            }
        }
        proof {
            lemma_find_bounds(self.ringtones(), Seq::empty(), id);
            if id != -1 {
                let i = find_by_id(self.ringtones(), id)->0;
                lemma_find_by_path_exists(self.ringtones(), i);
            }
        }
        self.validate_internal_audio_config();
        Ok(())
    }

    /// Lists the ringtones anew from `dir_entries` and drops the choice if it is
    /// no longer listed; answers whether it did.
    pub fn refresh_ringtones(&mut self, dir_entries: Option<Vec<String>>) -> (r: Result<bool, RingtoneError>)
        requires
            dir_entries matches Some(es) ==> forall|k: int| 0 <= k < es@.len() ==> is_entry_name(#[trigger] es@[k]@),
        ensures
            final(self).dir() == old(self).dir(),
            final(self).lists_dir(dir_entries),
            match r {
                Ok(changed) => {
                    &&& dir_entries is Some
                    &&& final(self).choice() == validated_choice(old(self).choice(), final(self).ringtones())
                    &&& changed == !choice_listed(old(self).choice(), final(self).ringtones())
                    &&& choice_listed(final(self).choice(), final(self).ringtones())
                },
                Err(e) => dir_entries is None && e == RingtoneError::DirectoryNotFound
                    && final(self).choice() == old(self).choice(),
            },
            keeps_ids(old(self).ringtones(), final(self).ringtones()),
    {
        match self.fetch_ringtone_files(dir_entries) {
            Ok(()) => {},
            Err(e) => return Err(e),
        }
        Ok(self.validate_internal_audio_config())
    }
}

proof fn lemma_find_by_path_exists(rs: Seq<RingtoneItemView>, i: int)
    requires
        0 <= i < rs.len(),
    ensures
        find_by_path(rs, rs[i].path) is Some,
    decreases i,
{
    if i > 0 && rs[0].path != rs[i].path {
        lemma_find_by_path_exists(rs.drop_first(), i - 1);
    }
}

/// With distinct paths, choosing ringtone `id` and reading the chosen id back
/// gives `id`.
pub proof fn lemma_choose_then_read_id(rs: Seq<RingtoneItemView>, id: i32)
    requires
        forall|a: int, b: int| 0 <= a < b < rs.len() ==> (#[trigger] rs[a]).path != (#[trigger] rs[b]).path,
        find_by_id(rs, id) is Some,
    ensures
        chosen_id(Some(rs[find_by_id(rs, id)->0].path), rs) == id,
{
    let i = find_by_id(rs, id)->0;
    lemma_find_bounds(rs, rs[i].path, id);
    lemma_find_by_path(rs, rs[i].path, i);
}

/// Joining a directory with a name keeps names apart.
proof fn lemma_join_path_injective(dir: Seq<char>, a: Seq<char>, b: Seq<char>)
    requires
        join_path(dir, a) == join_path(dir, b),
    ensures
        a == b,
{
    let p = if dir.len() == 0 {
        Seq::<char>::empty()
    } else if dir.last() == '/' {
        dir
    } else {
        dir + "/"@
    };
    assert(join_path(dir, a) =~= p + a);
    assert(join_path(dir, b) =~= p + b);
    assert(a =~= (p + a).subrange(p.len() as int, (p + a).len() as int));
    assert(b =~= (p + b).subrange(p.len() as int, (p + b).len() as int));
}

/// Every listed ringtone comes from one of the names, and names listed once
/// give paths listed once.
proof fn lemma_ringtone_files_paths(dir: Seq<char>, names: Seq<Seq<char>>)
    ensures
        forall|k: int| 0 <= k < ringtone_files(dir, names).len() ==> exists|j: int| 0 <= j < names.len()
            && #[trigger] ringtone_files(dir, names)[k].1 == join_path(dir, names[j]),
        names.no_duplicates() ==> forall|a: int, b: int| 0 <= a < b < ringtone_files(dir, names).len()
            ==> (#[trigger] ringtone_files(dir, names)[a]).1 != (#[trigger] ringtone_files(dir, names)[b]).1,
    decreases names.len(),
{
    if names.len() > 0 {
        let init = names.drop_last();
        let rest = ringtone_files(dir, init);
        lemma_ringtone_files_paths(dir, init);
        let files = ringtone_files(dir, names);
        assert forall|k: int| 0 <= k < files.len() implies exists|j: int| 0 <= j < names.len()
            && #[trigger] files[k].1 == join_path(dir, names[j]) by {
            if k < rest.len() {
                assert(files[k] == rest[k]);
                let j = choose|j: int| 0 <= j < init.len() && rest[k].1 == join_path(dir, init[j]);
                assert(names[j] == init[j]);
            } else {
                assert(files[k].1 == join_path(dir, names[names.len() - 1]));
            }
        }
        if names.no_duplicates() {
            assert(init.no_duplicates()) by {
                assert forall|a: int, b: int| 0 <= a < b < init.len() implies init[a] != init[b] by {
                    assert(init[a] == names[a] && init[b] == names[b]);
                }
            }
            assert forall|a: int, b: int| 0 <= a < b < files.len() implies (#[trigger] files[a]).1
                != (#[trigger] files[b]).1 by {
                if b >= rest.len() {
                    assert(files[a] == rest[a]);
                    let j = choose|j: int| 0 <= j < init.len() && rest[a].1 == join_path(dir, init[j]);
                    assert(files[b].1 == join_path(dir, names.last()));
                    if files[a].1 == files[b].1 {
                        lemma_join_path_injective(dir, init[j], names.last());
                        assert(names[j] == names[names.len() - 1]);
                    }
                } else {
                    assert(files[a] == rest[a] && files[b] == rest[b]);
                }
            }
        }
    }
}

/// A sorted arrangement of names listed once lists each name once.
proof fn lemma_sorted_keeps_distinct(s: Seq<Seq<char>>, es: Seq<Seq<char>>)
    requires
        s.to_multiset() == es.to_multiset(),
        es.no_duplicates(),
    ensures
        s.no_duplicates(),
{
    es.lemma_multiset_has_no_duplicates();
    s.lemma_multiset_has_no_duplicates_conv();
}

/// Searching by path sees only the paths.
proof fn lemma_find_by_path_same_paths(rs1: Seq<RingtoneItemView>, rs2: Seq<RingtoneItemView>, path: Seq<char>)
    requires
        rs1.len() == rs2.len(),
        forall|k: int| 0 <= k < rs1.len() ==> (#[trigger] rs1[k]).path == rs2[k].path,
    ensures
        find_by_path(rs1, path) == find_by_path(rs2, path),
    decreases rs1.len(),
{
    if rs1.len() > 0 {
        assert(rs1[0].path == rs2[0].path);
        lemma_find_by_path_same_paths(rs1.drop_first(), rs2.drop_first(), path);
    }
}

/// A listing of names given once holds each path once.
proof fn lemma_listing_paths_distinct(m: RingtoneManager, es: Seq<Seq<char>>)
    requires
        es.no_duplicates(),
        m.lists_entries(es),
    ensures
        forall|a: int, b: int| 0 <= a < b < m.ringtones().len() ==> (#[trigger] m.ringtones()[a]).path
            != (#[trigger] m.ringtones()[b]).path,
{
    let rs = m.ringtones();
    let s = choose|s: Seq<Seq<char>>| sorted_permutation(s, es) && lists_files(rs, ringtone_files(m.dir(), s));
    lemma_sorted_keeps_distinct(s, es);
    lemma_ringtone_files_paths(m.dir(), s);
    let files = ringtone_files(m.dir(), s);
    assert forall|a: int, b: int| 0 <= a < b < rs.len() implies (#[trigger] rs[a]).path != (#[trigger] rs[b]).path by {
        assert(files[a].1 != files[b].1);
    }
}

proof fn lemma_find_by_id_exists(rs: Seq<RingtoneItemView>, i: int)
    requires
        0 <= i < rs.len(),
    ensures
        find_by_id(rs, rs[i].id) is Some,
    decreases i,
{
    if i > 0 && rs[0].id != rs[i].id {
        lemma_find_by_id_exists(rs.drop_first(), i - 1);
    }
}

/// Reading the chosen ringtone back after choosing ringtone `id` gives `id`,
/// when the directory lists each name once.
pub proof fn lemma_set_then_get_ringtone_id(
    before: RingtoneManager,
    after: RingtoneManager,
    id: i32,
    dir_entries: Vec<String>,
)
    requires
        view_strings(dir_entries@).no_duplicates(),
        before.chose_ringtone(&after, id, Some(dir_entries), Ok(())),
    ensures
        chosen_id(after.choice(), after.ringtones()) == id,
{
    if id != -1 {
        lemma_listing_paths_distinct(after, view_strings(dir_entries@));
        lemma_choose_then_read_id(after.ringtones(), id);
    }
}

/// An id taken from the ringtones is accepted when the directory has not
/// changed: choosing it succeeds and reads back as that id. (The directory
/// lists each name once.)
pub proof fn lemma_listed_id_is_accepted(
    before: RingtoneManager,
    after: RingtoneManager,
    id: i32,
    dir_entries: Vec<String>,
    r: Result<(), RingtoneError>,
)
    requires
        view_strings(dir_entries@).no_duplicates(),
        before.lists_entries(view_strings(dir_entries@)),
        find_by_id(before.ringtones(), id) is Some,
        before.chose_ringtone(&after, id, Some(dir_entries), r),
    ensures
        r is Ok,
        chosen_id(after.choice(), after.ringtones()) == id,
{
    let es = view_strings(dir_entries@);
    let rs1 = before.ringtones();
    let rs2 = after.ringtones();
    lemma_listing_is_determined(before, after, es, None);
    lemma_listing_paths_distinct(before, es);
    let i = find_by_id(rs1, id)->0;
    lemma_find_bounds(rs1, rs1[i].path, id);
    lemma_find_by_path(rs1, rs1[i].path, i);
    assert(rs2[i].path == rs1[i].path);
    assert(rs2[i].id == id);
    lemma_find_by_id_exists(rs2, i);
    assert(r is Ok);
    lemma_set_then_get_ringtone_id(before, after, id, dir_entries);
}

/// Two listings of the same directory entries hold the same ringtones, name
/// and path, in the same order (ids aside, which come from a hash). So
/// whether a choice is listed does not depend on the listing asked, and a
/// second refresh with the same entries reports no change.
pub proof fn lemma_listing_is_determined(
    m1: RingtoneManager,
    m2: RingtoneManager,
    es: Seq<Seq<char>>,
    choice: Option<Seq<char>>,
)
    requires
        m1.dir() == m2.dir(),
        m1.lists_entries(es),
        m2.lists_entries(es),
    ensures
        m1.ringtones().len() == m2.ringtones().len(),
        forall|k: int|
            0 <= k < m1.ringtones().len() ==> (#[trigger] m1.ringtones()[k]).name == m2.ringtones()[k].name
                && m1.ringtones()[k].path == m2.ringtones()[k].path,
        choice_listed(choice, m1.ringtones()) == choice_listed(choice, m2.ringtones()),
        validated_choice(choice, m1.ringtones()) == validated_choice(choice, m2.ringtones()),
{
    let rs1 = m1.ringtones();
    let rs2 = m2.ringtones();
    let s1 = choose|s: Seq<Seq<char>>| sorted_permutation(s, es) && lists_files(rs1, ringtone_files(m1.dir(), s));
    let s2 = choose|s: Seq<Seq<char>>| sorted_permutation(s, es) && lists_files(rs2, ringtone_files(m2.dir(), s));
    let leq = |a: Seq<char>, b: Seq<char>| lex_le(a, b);
    lemma_lex_total_ordering();
    assert(vstd::relations::sorted_by(s1, leq));
    assert(vstd::relations::sorted_by(s2, leq));
    vstd::seq_lib::lemma_sorted_unique(s1, s2, leq);
    assert(s1 == s2);
    assert forall|k: int| 0 <= k < rs1.len() implies (#[trigger] rs1[k]).path == rs2[k].path by {}
    if let Some(p) = choice {
        lemma_find_by_path_same_paths(rs1, rs2, p);
    }
}

} // verus!
