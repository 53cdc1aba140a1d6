use vstd::prelude::*;
use vstd::string::StrSliceExecFns;

use crate::text::strings_view;

verus! {

/// An edition of a release.
#[derive(Clone, Debug)]
pub struct Torrent {
    /// ID number.
    pub id: u32,
    /// Media, such as `CD`, `Vinyl` or `WEB`.
    pub media: String,
    /// Format, such as `MP3` or `FLAC`.
    pub format: String,
    /// Encoding, such as `320` or `Lossless`.
    pub encoding: String,
    /// Has this release been confirmed?  An unconfirmed release likely has
    /// no year.
    pub remastered: bool,
    /// Edition year; may be zero.
    pub remaster_year: Option<u16>,
    /// Edition title.
    pub remaster_title: String,
    /// Edition record label.
    pub remaster_record_label: String,
    /// Edition catalogue number.
    pub remaster_catalogue_number: String,
    /// Is this a scene release?
    pub scene: bool,
    /// Is there a log?
    pub has_log: bool,
    /// Is there a cue?
    pub has_cue: bool,
    /// The log score.
    pub log_score: i32,
    /// Number of files in the torrent.
    pub file_count: u32,
    /// Total size of the files in bytes.
    pub size: u64,
    /// Number of seeders.
    pub seeders: u32,
    /// Number of leechers.
    pub leechers: u32,
    /// Number of times snatched.
    pub snatched: u32,
    /// Has the user snatched the torrent?
    pub has_snatched: Option<bool>,
    /// Is this trumpable?  Only one deployment reports it.
    pub trumpable: Option<bool>,
    /// Is this an approved lossy web release?
    pub lossy_web_approved: Option<bool>,
    /// Is this an approved lossy master release?
    pub lossy_master_approved: Option<bool>,
    /// Freeleech flag; one deployment encodes it oddly, so it is optional.
    pub free_torrent: Option<bool>,
    /// Is this neutral leech?
    pub is_neutralleech: Option<bool>,
    /// Is this freeload?
    pub is_freeload: Option<bool>,
    /// Has this been reported?
    pub reported: bool,
    /// Time of last logged event.
    pub time: String,
    /// Description formatted as BB code.
    pub description: String,
    /// Encoded string of files and their sizes: entries of the shape
    /// `name{{{size}}}`, joined by `|||`; names do not contain `|`.
    pub file_list: String,
    /// The name of the torrent directory.
    pub file_path: String,
    /// ID of uploader.
    pub user_id: u32,
    /// Username of uploader.
    pub username: String,
}

/// An entry separator `|||` starts at position `i`.
pub open spec fn sep_at(s: Seq<char>, i: int) -> bool {
    &&& 0 <= i
    &&& i + 3 <= s.len()
    &&& s[i] == '|'
    &&& s[i + 1] == '|'
    &&& s[i + 2] == '|'
}

/// The position of the first entry separator, or the length when there is
/// none.
pub open spec fn first_sep(s: Seq<char>) -> int
    decreases s.len(),
{
    if sep_at(s, 0) {
        0
    } else if s.len() == 0 {
        0
    } else {
        1 + first_sep(s.drop_first())
    }
}

/// The entries of a file list: the pieces between `|||` separators,
/// scanning left to right.
pub open spec fn split_entries(s: Seq<char>) -> Seq<Seq<char>>
    decreases s.len(),
{
    let k = first_sep(s);
    if k + 3 <= s.len() && sep_at(s, k) {
        seq![s.take(k)] + split_entries(s.skip(k + 3))
    } else {
        seq![s]
    }
}

/// A decimal digit.
pub open spec fn is_digit(c: char) -> bool {
    '0' <= c && c <= '9'
}

/// How many digits the sequence ends with.
pub open spec fn digit_suffix_len(e: Seq<char>) -> int
    decreases e.len(),
{
    if e.len() > 0 && is_digit(e.last()) {
        1 + digit_suffix_len(e.drop_last())
    } else {
        0
    }
}

/// The flac path of one file entry, when the entry has the shape
/// `name{{{digits}}}` with a nonempty digit run and a pipe-free `name`
/// that consists of at least one character followed by `.flac`.
///
/// An entry is taken whole or not at all: one that carries a stray pipe
/// or text after the closing braces does not parse, and no fragment of it
/// is extracted.  Well-formed file lists carry no such entries.
pub open spec fn entry_flac_name(e: Seq<char>) -> Option<Seq<char>> {
    if e.len() >= 3 && e[e.len() - 1] == '}' && e[e.len() - 2] == '}' && e[e.len() - 3] == '}' {
        let core = e.take(e.len() - 3);
        let d = digit_suffix_len(core);
        if d >= 1 && core.len() - d >= 3 && core[core.len() - d - 1] == '{' && core[core.len() - d
            - 2] == '{' && core[core.len() - d - 3] == '{' {
            let name = core.take(core.len() - d - 3);
            if name.len() >= 6 && name[name.len() - 5] == '.' && name[name.len() - 4] == 'f'
                && name[name.len() - 3] == 'l' && name[name.len() - 2] == 'a' && name[name.len()
                - 1] == 'c' && (forall|j: int| 0 <= j < name.len() ==> name[j] != '|') {
                Some(name)
            } else {
                None
            }
        } else {
            None
        }
    } else {
        None
    }
}

/// The flac paths of the entries that parse, in entry order.
pub open spec fn collect_flacs(entries: Seq<Seq<char>>) -> Seq<Seq<char>>
    decreases entries.len(),
{
    if entries.len() == 0 {
        Seq::empty()
    } else {
        (match entry_flac_name(entries[0]) {
            Some(n) => seq![n],
            None => Seq::empty(),
        }) + collect_flacs(entries.drop_first())
    }
}

/// The flac paths listed in a file list.
pub open spec fn flacs_of(s: Seq<char>) -> Seq<Seq<char>> {
    collect_flacs(split_entries(s))
}

/// `first_sep` is exactly the position of the first separator (or the
/// length when no separator occurs).
proof fn lemma_first_sep_is(s: Seq<char>, k: int)
    requires
        0 <= k <= s.len(),
        forall|j: int| 0 <= j < k ==> !sep_at(s, j),
        sep_at(s, k) || k == s.len(),
    ensures
        first_sep(s) == k,
    decreases k,
{
    if k == 0 {
    } else {
        assert(!sep_at(s, 0));
        assert(forall|j: int| 0 <= j < s.drop_first().len() ==> s.drop_first()[j] == s[j + 1]);
        assert forall|j: int| 0 <= j < k - 1 implies !sep_at(s.drop_first(), j) by {
            if sep_at(s.drop_first(), j) {
                assert(sep_at(s, j + 1));
            }
        }
        if sep_at(s, k) {
            assert(sep_at(s.drop_first(), k - 1));
        }
        lemma_first_sep_is(s.drop_first(), k - 1);
    }
}

/// The digit suffix is never longer than the sequence.
proof fn lemma_digit_suffix_len_bounds(e: Seq<char>)
    ensures
        0 <= digit_suffix_len(e) <= e.len(),
    decreases e.len(),
{
    if e.len() > 0 && is_digit(e.last()) {
        lemma_digit_suffix_len_bounds(e.drop_last());
    }
}

/// A digit check on one character.
fn is_digit_char(c: char) -> (r: bool)
    ensures
        r == is_digit(c),
{
    '0' <= c && c <= '9'
}

/// Find the first entry separator at or after `start`, or the end.
fn find_sep(s: &str, start: usize) -> (k: usize)
    requires
        start <= s@.len(),
    ensures
        start <= k <= s@.len(),
        k - start == first_sep(s@.skip(start as int)),
        k < s@.len() ==> sep_at(s@.skip(start as int), k - start),
{
    let ghost suf = s@.skip(start as int);
    proof {
        assert(forall|j: int| 0 <= j < suf.len() ==> suf[j] == s@[start + j]);
    }
    let n = s.unicode_len();
    let mut k = start;
    while k < n
        invariant
            start <= k <= n,
            n == s@.len(),
            suf == s@.skip(start as int),
            forall|j: int| 0 <= j < suf.len() ==> suf[j] == s@[start + j],
            forall|j: int| 0 <= j < k - start ==> !sep_at(suf, j),
        decreases n - k,
    {
        if n - k >= 3 {
            let c0 = s.get_char(k);
            let c1 = s.get_char(k + 1);
            let c2 = s.get_char(k + 2);
            if c0 == '|' && c1 == '|' && c2 == '|' {
                proof {
                    assert(sep_at(suf, k - start));
                    lemma_first_sep_is(suf, k - start);
                }
                return k;
            }
        }
        proof {
            assert(!sep_at(suf, k - start));
        }
        k += 1;
    }
    proof {
        lemma_first_sep_is(suf, k - start);
    }
    k
}

/// Parse one entry, the piece of `s` from `start` to `end`, as a flac
/// file entry.
#[verifier::loop_isolation(false)]
fn parse_entry(s: &str, start: usize, end: usize) -> (r: Option<String>)
    requires
        start <= end <= s@.len(),
    ensures
        ({
            let e = s@.subrange(start as int, end as int);
            match r {
                Some(name) => entry_flac_name(e) == Some(name@),
                None => entry_flac_name(e) is None,
            }
        }),
{
    let ghost e = s@.subrange(start as int, end as int);
    proof {
        assert(forall|j: int| 0 <= j < e.len() ==> e[j] == s@[start + j]);
    }
    let len = end - start;
    if len < 3 {
        return None;
    }
    if !(s.get_char(end - 1) == '}' && s.get_char(end - 2) == '}' && s.get_char(end - 3) == '}') {
        return None;
    }
    let ghost core = e.take(e.len() - 3);
    proof {
        assert(forall|j: int| 0 <= j < core.len() ==> core[j] == s@[start + j]);
        lemma_digit_suffix_len_bounds(core);
    }
    let core_end = end - 3;
    let mut d: usize = 0;
    proof {
        assert(core.take(core.len() as int) =~= core);
    }
    while core_end - d > start && is_digit_char(s.get_char(core_end - d - 1))
        invariant
            d <= core_end - start,
            start + 3 <= end <= s@.len(),
            core_end == end - 3,
            e == s@.subrange(start as int, end as int),
            core == e.take(e.len() - 3),
            forall|j: int| 0 <= j < core.len() ==> core[j] == s@[start + j],
            digit_suffix_len(core) == d + digit_suffix_len(core.take(core.len() - d)),
        decreases core_end - d - start,
    {
        proof {
            let partial = core.take(core.len() - d);
            assert(partial.last() == s@[core_end - d - 1]);
            assert(is_digit(partial.last()));
            assert(partial.drop_last() =~= core.take(core.len() - (d + 1)));
        }
        d += 1;
    }
    proof {
        let partial = core.take(core.len() - d);
        if partial.len() > 0 {
            assert(partial.last() == s@[core_end - d - 1]);
        }
        assert(digit_suffix_len(partial) == 0);
        assert(digit_suffix_len(core) == d);
    }
    if d == 0 {
        return None;
    }
    if core_end - d - start < 3 {
        return None;
    }
    if !(s.get_char(core_end - d - 1) == '{' && s.get_char(core_end - d - 2) == '{' && s.get_char(
        core_end - d - 3,
    ) == '{') {
        return None;
    }
    let name_end = core_end - d - 3;
    let ghost name = core.take(core.len() - d - 3);
    proof {
        assert(forall|j: int| 0 <= j < name.len() ==> name[j] == s@[start + j]);
    }
    if name_end - start < 6 {
        return None;
    }
    if !(s.get_char(name_end - 5) == '.' && s.get_char(name_end - 4) == 'f' && s.get_char(
        name_end - 3,
    ) == 'l' && s.get_char(name_end - 2) == 'a' && s.get_char(name_end - 1) == 'c') {
        return None;
    }
    let mut j = start;
    while j < name_end
        invariant
            start <= j <= name_end,
            name_end <= end <= s@.len(),
            name_end - start == name.len(),
            forall|t: int| 0 <= t < name.len() ==> name[t] == s@[start + t],
            forall|t: int| 0 <= t < j - start ==> name[t] != '|',
        decreases name_end - j,
    {
        if s.get_char(j) == '|' {
            proof {
                assert(name[j - start] == '|');
            }
            return None;
        }
        j += 1;
    }
    let flac = s.substring_char(start, name_end);
    proof {
        assert(flac@ =~= name);
    }
    Some(flac.to_owned())
}

/// The flac paths of the entries of `s` from position `start` on.
fn flacs_from(s: &str, start: usize) -> (r: Vec<String>)
    requires
        start <= s@.len(),
    ensures
        strings_view(r@) == collect_flacs(split_entries(s@.skip(start as int))),
    decreases s@.len() - start,
{
    let ghost suf = s@.skip(start as int);
    let n = s.unicode_len();
    let k = find_sep(s, start);
    let entry_name = parse_entry(s, start, k);
    proof {
        assert(suf.take(k - start) =~= s@.subrange(start as int, k as int));
    }
    let mut out: Vec<String> = Vec::new();
    if let Some(nm) = entry_name {
        out.push(nm);
    }
    if k < n {
        let ghost pre = out@;
        let mut rest = flacs_from(s, k + 3);
        let ghost restv = rest@;
        out.append(&mut rest);
        proof {
            crate::text::lemma_strings_view_concat(pre, restv);
            assert(suf.skip(k - start + 3) =~= s@.skip(k + 3));
            let entries = split_entries(suf);
            assert(entries == seq![suf.take(k - start)] + split_entries(suf.skip(k - start + 3)));
            assert(entries.drop_first() =~= split_entries(suf.skip(k - start + 3)));
            assert(entries[0] == suf.take(k - start));
            assert(collect_flacs(entries) == (match entry_flac_name(entries[0]) {
                Some(nm) => seq![nm],
                None => Seq::empty(),
            }) + collect_flacs(entries.drop_first()));
            assert(strings_view(out@) =~= collect_flacs(entries));
        }
    } else {
        proof {
            assert(k - start == suf.len());
            assert(suf.take(k - start) =~= suf);
            assert(suf == s@.subrange(start as int, k as int));
            assert(!(first_sep(suf) + 3 <= suf.len() && sep_at(suf, first_sep(suf))));
            let entries = split_entries(suf);
            assert(entries == seq![suf]);
            assert(entries[0] == suf);
            assert(entries.drop_first() =~= Seq::<Seq<char>>::empty());
            assert(collect_flacs(entries) == (match entry_flac_name(entries[0]) {
                Some(nm) => seq![nm],
                None => Seq::empty(),
            }) + collect_flacs(entries.drop_first()));
            assert(collect_flacs(Seq::<Seq<char>>::empty()) =~= Seq::<Seq<char>>::empty());
            assert(strings_view(out@) =~= collect_flacs(entries));
        }
    }
    out
}

impl Torrent {
    /// The paths of the flac files named in [`Self::file_list`]: the
    /// entries of the shape `name{{{size}}}` whose name ends in `.flac`,
    /// in order.  Each entry is judged whole, as [`entry_flac_name`]
    /// states.
    pub fn get_flacs(&self) -> (r: Vec<String>)
        ensures
            strings_view(r@) == flacs_of(self.file_list@),
    {
        proof {
            assert(self.file_list@.skip(0) =~= self.file_list@);
        }
        flacs_from(&self.file_list, 0)
    }
}

} // verus!
