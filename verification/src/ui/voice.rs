//! Spoken reminders: which sound file announces a second.
//!
//! The file for second `n` is `assets/voice/<n>.<ext>`, with `<n>` in decimal
//! and the extensions tried in a fixed order; the first file that exists is
//! used.

use vstd::prelude::*;

use std::path::PathBuf;

verus! {

/// Directory that holds the reminder sounds.
pub const VOICE_DIR: &'static str = "assets/voice";

/// How many file extensions are tried.
pub const VOICE_EXTENSION_COUNT: usize = 5;

/// `std::path::PathBuf`, carried through as an opaque value.
#[verifier::external_type_specification]
#[verifier::external_body]
pub struct ExPathBuf(PathBuf);

/// The path that `Path::join` builds from a base directory and a file name
/// (with the separator of the platform the program is built for).
pub uninterp spec fn joined_path(base: Seq<char>, name: Seq<char>) -> PathBuf;

/// `std::path::Path::join` on `base`: its result is named `joined_path` of
/// the two texts; nothing more about the path is claimed.
#[verifier::external_body]
fn join_path(base: &str, name: &str) -> (p: PathBuf)
    ensures
        p == joined_path(base@, name@),
{
    std::path::Path::new(base).join(name)
}

/// `std::path::Path::exists`: asks the file system, so nothing is claimed of
/// the answer.
#[verifier::external_body]
fn path_exists(p: &PathBuf) -> bool {
    p.exists()
}

/// `String::push`: appends one character.
#[verifier::external_body]
pub(crate) fn push_char(s: &mut String, c: char)
    ensures
        final(s)@ == old(s)@.push(c),
{
    s.push(c)
}

/// The character of a decimal digit.
pub open spec fn digit_char(d: nat) -> char {
    if d == 0 {
        '0'
    } else if d == 1 {
        '1'
    } else if d == 2 {
        '2'
    } else if d == 3 {
        '3'
    } else if d == 4 {
        '4'
    } else if d == 5 {
        '5'
    } else if d == 6 {
        '6'
    } else if d == 7 {
        '7'
    } else if d == 8 {
        '8'
    } else {
        '9'
    }
}

/// The value of a decimal digit character, for the ten digits.
pub open spec fn digit_value(c: char) -> nat {
    if c == '0' {
        0
    } else if c == '1' {
        1
    } else if c == '2' {
        2
    } else if c == '3' {
        3
    } else if c == '4' {
        4
    } else if c == '5' {
        5
    } else if c == '6' {
        6
    } else if c == '7' {
        7
    } else if c == '8' {
        8
    } else {
        9
    }
}

/// The decimal numeral of `n`, without leading zeros.
pub open spec fn decimal(n: nat) -> Seq<char>
    decreases n,
{
    if n < 10 {
        seq![digit_char(n)]
    } else {
        decimal(n / 10).push(digit_char(n % 10))
    }
}

/// The number a sequence of decimal digits denotes.
pub open spec fn numeral_value(s: Seq<char>) -> nat
    decreases s.len(),
{
    if s.len() == 0 {
        0
    } else {
        numeral_value(s.drop_last()) * 10 + digit_value(s.last())
    }
}

/// The extensions tried, in order.
pub open spec fn voice_extension_text(i: int) -> Seq<char> {
    if i == 0 {
        "mp3"@
    } else if i == 1 {
        "wav"@
    } else if i == 2 {
        "ogg"@
    } else if i == 3 {
        "m4a"@
    } else {
        "flac"@
    }
}

/// The file name announcing second `sec` with extension `ext`.
pub open spec fn voice_file_name_text(sec: nat, ext: Seq<char>) -> Seq<char> {
    decimal(sec).push('.') + ext
}

/// The `i`-th path tried for second `sec`.
pub open spec fn voice_candidate(sec: nat, i: int) -> PathBuf {
    joined_path(VOICE_DIR@, voice_file_name_text(sec, voice_extension_text(i)))
}

fn digit(d: usize) -> (c: char)
    requires
        d < 10,
    ensures
        c == digit_char(d as nat),
{
    match d {
        0 => '0',
        1 => '1',
        2 => '2',
        3 => '3',
        4 => '4',
        5 => '5',
        6 => '6',
        7 => '7',
        8 => '8',
        _ => '9',
    }
}

/// Writes `n` in decimal.
pub fn decimal_string(n: usize) -> (s: String)
    ensures
        s@ == decimal(n as nat),
    decreases n,
{
    if n < 10 {
        let mut s = String::new();
        push_char(&mut s, digit(n));
        s
    } else {
        let mut s = decimal_string(n / 10);
        push_char(&mut s, digit(n % 10));
        s
    }
}

/// The `i`-th extension tried.
pub fn voice_extension(i: usize) -> (ext: &'static str)
    requires
        i < VOICE_EXTENSION_COUNT,
    ensures
        ext@ == voice_extension_text(i as int),
{
    match i {
        0 => "mp3",
        1 => "wav",
        2 => "ogg",
        3 => "m4a",
        _ => "flac",
    }
}

/// The file name that announces second `sec` with extension `ext`:
/// `sec` in decimal, a dot, and the extension.
pub fn voice_file_name(sec: usize, ext: &str) -> (name: String)
    ensures
        name@ == voice_file_name_text(sec as nat, ext@),
{
    let mut name = decimal_string(sec);
    push_char(&mut name, '.');
    name.append(ext);
    name
}

/// The `i`-th path tried for second `sec`: the voice directory joined with
/// the file name for the `i`-th extension.
pub fn voice_file_path(sec: usize, i: usize) -> (p: PathBuf)
    requires
        i < VOICE_EXTENSION_COUNT,
    ensures
        p == voice_candidate(sec as nat, i as int),
{
    let name = voice_file_name(sec, voice_extension(i));
    join_path(VOICE_DIR, name.as_str())
}

/// The file chosen from the answers `found[i]` to "does the `i`-th
/// candidate exist?", looking from index `from` on: the first candidate
/// answered yes, or `None` when no answer is yes.
pub open spec fn voice_file_choice(sec: nat, found: Seq<bool>, from: int) -> Option<PathBuf>
    decreases found.len() - from,
{
    if from < 0 || from >= found.len() {
        None
    } else if found[from] {
        Some(voice_candidate(sec, from))
    } else {
        voice_file_choice(sec, found, from + 1)
    }
}

/// The answers a search for a voice file receives: the candidates are asked
/// about in order, and the search stops at the first yes or after the last
/// candidate.
pub open spec fn is_probe_record(found: Seq<bool>) -> bool {
    &&& 1 <= found.len() <= VOICE_EXTENSION_COUNT
    &&& forall|j: int| 0 <= j < found.len() - 1 ==> !found[j]
    &&& found.len() < VOICE_EXTENSION_COUNT ==> found.last()
}

/// The chosen file is the candidate at the smallest index answered yes, and
/// there is none when every answer is no.
pub proof fn lemma_first_yes_is_chosen(sec: nat, found: Seq<bool>, i: int)
    ensures
        0 <= i < found.len() && found[i] && (forall|j: int| 0 <= j < i ==> !found[j])
            ==> voice_file_choice(sec, found, 0) == Some(voice_candidate(sec, i)),
        (forall|j: int| 0 <= j < found.len() ==> !found[j]) ==> voice_file_choice(sec, found, 0)
            is None,
{
    if 0 <= i < found.len() && found[i] && (forall|j: int| 0 <= j < i ==> !found[j]) {
        lemma_choice_from(sec, found, 0, i);
    }
    if forall|j: int| 0 <= j < found.len() ==> !found[j] {
        lemma_choice_none_from(sec, found, 0);
    }
}

proof fn lemma_choice_from(sec: nat, found: Seq<bool>, from: int, i: int)
    requires
        0 <= from <= i < found.len(),
        found[i],
        forall|j: int| from <= j < i ==> !found[j],
    ensures
        voice_file_choice(sec, found, from) == Some(voice_candidate(sec, i)),
    decreases i - from,
{
    if from < i {
        lemma_choice_from(sec, found, from + 1, i);
    }
}

proof fn lemma_choice_none_from(sec: nat, found: Seq<bool>, from: int)
    requires
        0 <= from,
        forall|j: int| from <= j < found.len() ==> !found[j],
    ensures
        voice_file_choice(sec, found, from) is None,
    decreases found.len() - from,
{
    if from < found.len() {
        lemma_choice_none_from(sec, found, from + 1);
    }
}

/// Picks the voice file for second `sec` from the answers about the
/// candidates, in order: the first candidate answered yes, else `None`.
pub fn voice_file_from_probes(sec: usize, found: &Vec<bool>) -> (file: Option<PathBuf>)
    requires
        found@.len() <= VOICE_EXTENSION_COUNT,
    ensures
        file == voice_file_choice(sec as nat, found@, 0),
{
    let n = found.len();
    let mut i: usize = 0;
    while i < n
        invariant
            n == found@.len(),
            n <= VOICE_EXTENSION_COUNT,
            i <= n,
            voice_file_choice(sec as nat, found@, 0) == voice_file_choice(sec as nat, found@, i as int),
        decreases n - i,
    {
        if found[i] {
            return Some(voice_file_path(sec, i));
        }
        i = i + 1;
    }
    None
}

/// Searches for the voice file of second `sec` with `probe` as the answer to
/// "does this path exist?": the candidates are asked about in the order of
/// the extensions, the `i`-th answer is `probe`'s answer for the `i`-th
/// candidate, the search stops at the first yes, and the result is the
/// candidate answered yes, or `None` when all five were answered no.
pub fn find_voice_file_by<F: Fn(&PathBuf) -> bool>(sec: usize, probe: F) -> (found: Option<PathBuf>)
    requires
        forall|p: &PathBuf| call_requires(probe, (p,)),
    ensures
        exists|probes: Seq<bool>|
            #[trigger] is_probe_record(probes) && (forall|i: int|
                0 <= i < probes.len() ==> call_ensures(probe, (&voice_candidate(sec as nat, i),), probes[i]))
                && found == voice_file_choice(sec as nat, probes, 0),
{
    let mut probes: Vec<bool> = Vec::new();
    let mut i: usize = 0;
    let mut done = false;
    while i < VOICE_EXTENSION_COUNT && !done
        invariant
            forall|p: &PathBuf| call_requires(probe, (p,)),
            i <= VOICE_EXTENSION_COUNT,
            probes@.len() == i,
            forall|j: int| 0 <= j < i && !(done && j == i - 1) ==> !probes@[j],
            done ==> i >= 1 && probes@[i - 1],
            forall|j: int|
                0 <= j < i ==> call_ensures(probe, (&voice_candidate(sec as nat, j),), probes@[j]),
        decreases VOICE_EXTENSION_COUNT - i,
    {
        let path = voice_file_path(sec, i);
        let exists = probe(&path);
        probes.push(exists);
        done = exists;
        i = i + 1;
    }
    assert(is_probe_record(probes@));
    voice_file_from_probes(sec, &probes)
}

/// `answer` is what the file system's existence check gave for `path`.
pub closed spec fn answered_exists(path: PathBuf, answer: bool) -> bool {
    call_ensures(path_exists, (&path,), answer)
}

/// The sound file that announces second `sec`: the first of the candidate
/// paths, in the order of the extensions, that exists; `None` when none does.
/// Whether a path exists is the file system's answer (`path_exists` on that
/// path); the result is the choice made from those answers.
pub fn find_voice_file(sec: usize) -> (found: Option<PathBuf>)
    ensures
        exists|probes: Seq<bool>|
            #[trigger] is_probe_record(probes) && (forall|i: int|
                0 <= i < probes.len() ==> answered_exists(voice_candidate(sec as nat, i), probes[i]))
                && found == voice_file_choice(sec as nat, probes, 0),
{
    find_voice_file_by(sec, path_exists)
}

/// A voice file name is the decimal numeral of the second, a dot, and the
/// extension, in that order.
pub proof fn lemma_voice_file_name_parts(sec: nat, ext: Seq<char>)
    ensures
        voice_file_name_text(sec, ext).len() == decimal(sec).len() + 1 + ext.len(),
        voice_file_name_text(sec, ext).take(decimal(sec).len() as int) == decimal(sec),
        voice_file_name_text(sec, ext)[decimal(sec).len() as int] == '.',
        voice_file_name_text(sec, ext).skip(decimal(sec).len() as int + 1) == ext,
{
    assert(voice_file_name_text(sec, ext).take(decimal(sec).len() as int) =~= decimal(sec));
    assert(voice_file_name_text(sec, ext).skip(decimal(sec).len() as int + 1) =~= ext);
}

/// Reading back the decimal numeral of a number gives the number.
pub proof fn lemma_decimal_round_trip(n: nat)
    ensures
        numeral_value(decimal(n)) == n,
        decimal(n).len() >= 1,
        decimal(n).len() > 1 ==> decimal(n)[0] != '0',
    decreases n,
{
    if n < 10 {
        assert(decimal(n).drop_last() =~= Seq::<char>::empty());
        assert(digit_value(digit_char(n)) == n);
        assert(numeral_value(Seq::<char>::empty()) == 0);
    } else {
        let q = n / 10;
        let r = n % 10;
        lemma_decimal_round_trip(q);
        assert(decimal(n) == decimal(q).push(digit_char(r)));
        assert(decimal(n).drop_last() =~= decimal(q));
        assert(digit_value(digit_char(r)) == r);
        assert(n == q * 10 + r);
        assert(decimal(n)[0] == decimal(q)[0]);
        if q < 10 {
            assert(decimal(q) == seq![digit_char(q)]);
            assert(q >= 1);
        } else {
            assert(decimal(q) == decimal(q / 10).push(digit_char(q % 10)));
            assert(decimal(q).len() > 1);
        }
    }
}

} // verus!
