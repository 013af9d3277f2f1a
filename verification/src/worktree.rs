//! Dirty-worktree evidence: the files a porcelain status lists, the sorted
//! untracked paths, and the BLAKE3 fingerprint over status, diff and
//! untracked file contents that tells two dirty states of one commit apart.

use vstd::prelude::*;
use vstd::string::{StringExecFns, StringSliceAdditionalSpecFns};
use vstd::utf8::{decode_utf8, is_char_boundary, valid_utf8};

use crate::order::{insert_sorted_unique, key_set, str_bytes, strictly_sorted};

verus! {

// ---------------------------------------------------------------------------
// Trusted items
// ---------------------------------------------------------------------------

/// The text `String::from_utf8_lossy` makes of `bytes`.
pub uninterp spec fn utf8_lossy_text(bytes: Seq<u8>) -> Seq<char>;

/// The 32-byte BLAKE3 hash of `input`.
pub uninterp spec fn blake3_digest(input: Seq<u8>) -> Seq<u8>;

/// The order `Vec<PathBuf>::sort` puts these paths in. The order is fixed
/// for a build target, but `Path` comparison differs between Windows and
/// Unix targets (separators and prefixes), so it is not the same on both.
pub uninterp spec fn path_sorted(paths: Seq<Seq<char>>) -> Seq<Seq<char>>;

/// Decodes bytes with std's `String::from_utf8_lossy`. Claimed: the text is
/// a function of the bytes alone, and valid UTF-8 is decoded unchanged.
/// What replaces invalid sequences is not stated.
#[verifier::external_body]
fn utf8_lossy(bytes: &[u8]) -> (r: String)
    ensures
        r@ == utf8_lossy_text(bytes@),
        valid_utf8(bytes@) ==> r@ == decode_utf8(bytes@),
{
    String::from_utf8_lossy(bytes).into_owned()
}

/// Hashes bytes with `blake3::hash`. Claimed: the 32-byte digest is a
/// function of the input alone. The hash function itself is not stated.
#[verifier::external_body]
fn blake3_hash(input: &[u8]) -> (r: Vec<u8>)
    ensures
        r@ == blake3_digest(input@),
        r@.len() == 32,
{
    blake3::hash(input).as_bytes().to_vec()
}

/// Sorts paths with std's `slice::sort` on `PathBuf` (component-wise path
/// order). Claimed: the result is a function of the input alone and a
/// permutation of it. The path order itself is not stated; it depends on
/// the build target's `Path` rules.
#[verifier::external_body]
fn sort_paths(paths: Vec<String>) -> (r: Vec<String>)
    ensures
        r@.map_values(|s: String| s@) == path_sorted(paths@.map_values(|s: String| s@)),
        r@.map_values(|s: String| s@).to_multiset() == paths@.map_values(|s: String| s@).to_multiset(),
{
    let mut p: Vec<std::path::PathBuf> = paths.into_iter().map(std::path::PathBuf::from).collect();
    p.sort();
    p.into_iter().map(|x| x.to_string_lossy().into_owned()).collect()
}

} // verus!

verus! {

// ---------------------------------------------------------------------------
// NUL-separated fields
// ---------------------------------------------------------------------------

/// Scans `s` left to right: the non-empty fields completed by a NUL so far,
/// and the field being read.
pub open spec fn scan_nul(s: Seq<u8>) -> (Seq<Seq<u8>>, Seq<u8>)
    decreases s.len(),
{
    if s.len() == 0 {
        (seq![], seq![])
    } else {
        let (done, cur) = scan_nul(s.drop_last());
        if s.last() == 0 {
            if cur.len() > 0 {
                (done.push(cur), seq![])
            } else {
                (done, seq![])
            }
        } else {
            (done, cur.push(s.last()))
        }
    }
}

/// The non-empty fields of `s` separated by NUL bytes, in order.
pub open spec fn nul_fields(s: Seq<u8>) -> Seq<Seq<u8>> {
    let (done, cur) = scan_nul(s);
    if cur.len() > 0 {
        done.push(cur)
    } else {
        done
    }
}

/// The byte contents of a list of byte vectors.
pub open spec fn views(v: Seq<Vec<u8>>) -> Seq<Seq<u8>> {
    v.map_values(|f: Vec<u8>| f@)
}

/// Splits `s` at NUL bytes and keeps the non-empty fields.
pub fn split_nul_fields(s: &[u8]) -> (r: Vec<Vec<u8>>)
    ensures
        views(r@) == nul_fields(s@),
{
    let n = s.len();
    let mut done: Vec<Vec<u8>> = Vec::new();
    let mut cur: Vec<u8> = Vec::new();
    let mut i: usize = 0;
    proof {
        assert(s@.take(0) =~= Seq::<u8>::empty());
        assert(views(done@) =~= Seq::<Seq<u8>>::empty());
    }
    while i < n
        invariant
            n == s@.len(),
            i <= n,
            views(done@) == scan_nul(s@.take(i as int)).0,
            cur@ == scan_nul(s@.take(i as int)).1,
        decreases n - i,
    {
        let b = s[i];
        proof {
            assert(s@.take(i + 1).drop_last() =~= s@.take(i as int));
            assert(s@.take(i + 1).last() == b);
        }
        if b == 0 {
            if cur.len() > 0 {
                let ghost d0 = done@;
                let field = cur;
                done.push(field);
                cur = Vec::new();
                proof {
                    assert(views(done@) =~= views(d0).push(field@));
                }
            } else {
                cur = Vec::new();
                proof {
                    assert(cur@ =~= Seq::<u8>::empty());
                }
            }
        } else {
            cur.push(b);
        }
        i = i + 1;
    }
    proof {
        assert(s@.take(n as int) =~= s@);
    }
    if cur.len() > 0 {
        let ghost d0 = done@;
        let ghost c0 = cur@;
        done.push(cur);
        proof {
            assert(views(done@) =~= views(d0).push(c0));
        }
    }
    done
}

} // verus!

verus! {

// ---------------------------------------------------------------------------
// Files listed by a porcelain status
// ---------------------------------------------------------------------------

/// The UTF-8 bytes of the text a status entry decodes to.
pub open spec fn entry_text_bytes(entry: Seq<u8>) -> Seq<u8> {
    str_bytes(utf8_lossy_text(entry))
}

/// Taking the path after the three-byte status prefix would split a character:
/// the entry's text has at least four bytes and byte 3 is no char boundary.
pub open spec fn entry_splits_char(entry: Seq<u8>) -> bool {
    let t = entry_text_bytes(entry);
    t.len() >= 4 && !is_char_boundary(t, 3)
}

/// The path named by a status entry: the text after its three-byte status
/// prefix, for entries of at least four bytes.
pub open spec fn entry_path_bytes(entry: Seq<u8>) -> Option<Seq<u8>> {
    let t = entry_text_bytes(entry);
    if t.len() >= 4 {
        Some(t.subrange(3, t.len() as int))
    } else {
        None
    }
}

/// The paths named by the first `n` entries of `fields`.
pub open spec fn listed_paths(fields: Seq<Seq<u8>>, n: int) -> Set<Seq<u8>> {
    Set::new(|k: Seq<u8>| exists|i: int| 0 <= i < n && entry_path_bytes(fields[i]) == Some(k))
}

/// Some entry of `status` would split a character.
pub open spec fn status_splits_char(status: Seq<u8>) -> bool {
    exists|i: int| 0 <= i < nul_fields(status).len() && entry_splits_char(nul_fields(status)[i])
}

/// The files a NUL-separated porcelain status lists, sorted and without
/// duplicates. `None` when an entry's path would start inside a character,
/// where slicing the text after its status prefix cannot be done.
pub fn dirty_files_from_status(status: &[u8]) -> (r: Option<Vec<String>>)
    ensures
        r is None <==> status_splits_char(status@),
        r matches Some(v) ==> strictly_sorted(v@)
            && key_set(v@) == listed_paths(nul_fields(status@), nul_fields(status@).len() as int),
{
    let fields = split_nul_fields(status);
    let ghost fs = nul_fields(status@);
    let mut out: Vec<String> = Vec::new();
    let mut j: usize = 0;
    proof {
        assert(key_set(out@) =~= listed_paths(fs, 0));
    }
    while j < fields.len()
        invariant
            views(fields@) == fs,
            fs == nul_fields(status@),
            j <= fields@.len(),
            strictly_sorted(out@),
            key_set(out@) == listed_paths(fs, j as int),
            forall|i: int| 0 <= i < j ==> !entry_splits_char(#[trigger] fs[i]),
        decreases fields@.len() - j,
    {
        assert(fields@[j as int]@ == fs[j as int]);
        let text = utf8_lossy(fields[j].as_slice());
        let t = text.as_str();
        let ghost tb = entry_text_bytes(fs[j as int]);
        assert(t.spec_bytes() == tb);
        let tbytes = t.as_bytes();
        if tbytes.len() >= 4 {
            if !t.is_char_boundary(3) {
                proof {
                    assert(fs.len() == fields@.len());
                    assert(entry_splits_char(fs[j as int]));
                }
                return None;
            }
            let (_, rest) = t.split_at(3);
            let path: String = rest.to_owned();
            let ghost k0 = key_set(out@);
            insert_sorted_unique(&mut out, path);
            proof {
                assert(str_bytes(path@) == tb.subrange(3, tb.len() as int));
                assert(listed_paths(fs, j + 1) =~= listed_paths(fs, j as int).insert(str_bytes(path@))) by {
                    assert forall|k: Seq<u8>| listed_paths(fs, j + 1).contains(k) implies
                        listed_paths(fs, j as int).insert(str_bytes(path@)).contains(k) by {
                        let i = choose|i: int| 0 <= i < j + 1 && entry_path_bytes(fs[i]) == Some(k);
                        if i < j {
                            assert(listed_paths(fs, j as int).contains(k));
                        }
                    }
                    assert forall|k: Seq<u8>| listed_paths(fs, j as int).insert(str_bytes(path@)).contains(k) implies
                        listed_paths(fs, j + 1).contains(k) by {
                        if k == str_bytes(path@) {
                            assert(entry_path_bytes(fs[j as int]) == Some(k));
                        } else {
                            let i = choose|i: int| 0 <= i < j && entry_path_bytes(fs[i]) == Some(k);
                            assert(entry_path_bytes(fs[i]) == Some(k));
                        }
                    }
                }
            }
        } else {
            proof {
                assert(tb.len() < 4);
                assert(entry_path_bytes(fs[j as int]) is None);
                assert(listed_paths(fs, j + 1) =~= listed_paths(fs, j as int)) by {
                    assert forall|k: Seq<u8>| listed_paths(fs, j + 1).contains(k) implies
                        listed_paths(fs, j as int).contains(k) by {
                        let i = choose|i: int| 0 <= i < j + 1 && entry_path_bytes(fs[i]) == Some(k);
                        assert(i < j);
                    }
                }
            }
        }
        proof {
            assert(!entry_splits_char(fs[j as int]));
        }
        j = j + 1;
    }
    proof {
        assert(!status_splits_char(status@));
    }
    Some(out)
}

} // verus!

verus! {

// ---------------------------------------------------------------------------
// Untracked paths
// ---------------------------------------------------------------------------

/// The untracked paths a NUL-separated `ls-files` listing names, decoded and
/// put in path order.
pub open spec fn untracked_path_list(listing: Seq<u8>) -> Seq<Seq<char>> {
    path_sorted(nul_fields(listing).map_values(|f: Seq<u8>| utf8_lossy_text(f)))
}

/// The character contents of a list of strings.
pub open spec fn texts(v: Seq<String>) -> Seq<Seq<char>> {
    v.map_values(|s: String| s@)
}

/// Decodes the non-empty NUL-separated entries of an untracked-files listing
/// and sorts them in path order.
pub fn untracked_paths(listing: &[u8]) -> (r: Vec<String>)
    ensures
        texts(r@) == untracked_path_list(listing@),
{
    let fields = split_nul_fields(listing);
    let ghost fs = nul_fields(listing@);
    let mut decoded: Vec<String> = Vec::new();
    let mut j: usize = 0;
    while j < fields.len()
        invariant
            views(fields@) == fs,
            j <= fields@.len(),
            decoded@.len() == j,
            forall|i: int| 0 <= i < j ==> (#[trigger] decoded@[i])@ == utf8_lossy_text(fs[i]),
        decreases fields@.len() - j,
    {
        assert(fields@[j as int]@ == fs[j as int]);
        let text = utf8_lossy(fields[j].as_slice());
        decoded.push(text);
        j = j + 1;
    }
    proof {
        assert(texts(decoded@) =~= fs.map_values(|f: Seq<u8>| utf8_lossy_text(f)));
    }
    sort_paths(decoded)
}

// ---------------------------------------------------------------------------
// Fingerprint
// ---------------------------------------------------------------------------

/// Lower-case hexadecimal digit of a nibble.
pub open spec fn hex_digit(n: int) -> char {
    if n == 0 {
        '0'
    } else if n == 1 {
        '1'
    } else if n == 2 {
        '2'
    } else if n == 3 {
        '3'
    } else if n == 4 {
        '4'
    } else if n == 5 {
        '5'
    } else if n == 6 {
        '6'
    } else if n == 7 {
        '7'
    } else if n == 8 {
        '8'
    } else if n == 9 {
        '9'
    } else if n == 10 {
        'a'
    } else if n == 11 {
        'b'
    } else if n == 12 {
        'c'
    } else if n == 13 {
        'd'
    } else if n == 14 {
        'e'
    } else {
        'f'
    }
}

/// Lower-case hexadecimal encoding, two digits per byte, high nibble first.
pub open spec fn hex_lower(d: Seq<u8>) -> Seq<char>
    decreases d.len(),
{
    if d.len() == 0 {
        seq![]
    } else {
        hex_lower(d.drop_last()) + seq![hex_digit(d.last() as int / 16), hex_digit(d.last() as int % 16)]
    }
}

fn hex_digit_str(n: u8) -> (r: &'static str)
    requires
        n < 16,
    ensures
        r@ == seq![hex_digit(n as int)],
{
    match n {
        0 => {
            proof {
                reveal_strlit("0");
            }
            "0"
        },
        1 => {
            proof {
                reveal_strlit("1");
            }
            "1"
        },
        2 => {
            proof {
                reveal_strlit("2");
            }
            "2"
        },
        3 => {
            proof {
                reveal_strlit("3");
            }
            "3"
        },
        4 => {
            proof {
                reveal_strlit("4");
            }
            "4"
        },
        5 => {
            proof {
                reveal_strlit("5");
            }
            "5"
        },
        6 => {
            proof {
                reveal_strlit("6");
            }
            "6"
        },
        7 => {
            proof {
                reveal_strlit("7");
            }
            "7"
        },
        8 => {
            proof {
                reveal_strlit("8");
            }
            "8"
        },
        9 => {
            proof {
                reveal_strlit("9");
            }
            "9"
        },
        10 => {
            proof {
                reveal_strlit("a");
            }
            "a"
        },
        11 => {
            proof {
                reveal_strlit("b");
            }
            "b"
        },
        12 => {
            proof {
                reveal_strlit("c");
            }
            "c"
        },
        13 => {
            proof {
                reveal_strlit("d");
            }
            "d"
        },
        14 => {
            proof {
                reveal_strlit("e");
            }
            "e"
        },
        _ => {
            proof {
                reveal_strlit("f");
            }
            "f"
        },
    }
}

/// Encodes bytes as lower-case hexadecimal.
pub fn to_hex(d: &[u8]) -> (r: String)
    ensures
        r@ == hex_lower(d@),
{
    let mut out = String::new();
    let mut i: usize = 0;
    while i < d.len()
        invariant
            i <= d@.len(),
            out@ == hex_lower(d@.take(i as int)),
        decreases d@.len() - i,
    {
        let b = d[i];
        proof {
            assert(d@.take(i + 1).drop_last() =~= d@.take(i as int));
        }
        out.append(hex_digit_str(b / 16));
        out.append(hex_digit_str(b % 16));
        i = i + 1;
    }
    proof {
        assert(d@.take(d@.len() as int) =~= d@);
    }
    out
}

/// Leading bytes of the fingerprint input, before the status listing.
pub open spec fn fingerprint_prefix() -> Seq<u8> {
    seq![99u8, 102u8, 45u8, 119u8, 111u8, 114u8, 107u8, 116u8, 114u8, 101u8, 101u8, 45u8, 102u8, 105u8, 110u8, 103u8, 101u8, 114u8, 112u8, 114u8, 105u8, 110u8, 116u8, 45u8, 118u8, 49u8, 0u8, 115u8, 116u8, 97u8, 116u8, 117u8, 115u8, 0u8]
}

/// Separator between the status listing and the diff.
pub open spec fn fingerprint_diff_separator() -> Seq<u8> {
    seq![0u8, 100u8, 105u8, 102u8, 102u8, 0u8]
}

/// Separator between the diff and the untracked files.
pub open spec fn fingerprint_untracked_separator() -> Seq<u8> {
    seq![0u8, 117u8, 110u8, 116u8, 114u8, 97u8, 99u8, 107u8, 101u8, 100u8, 0u8]
}

/// The digest recorded for an untracked file: the BLAKE3 hash of its
/// contents, or nothing when it could not be read.
pub open spec fn content_digest(contents: Option<Seq<u8>>) -> Seq<u8> {
    match contents {
        Some(c) => blake3_digest(c),
        None => seq![],
    }
}

/// For each untracked file in order: its path bytes, a NUL, its content
/// digest, a NUL.
pub open spec fn untracked_section(paths: Seq<Seq<char>>, contents: Seq<Option<Seq<u8>>>) -> Seq<u8>
    decreases paths.len(),
{
    if paths.len() == 0 {
        seq![]
    } else {
        untracked_section(paths.drop_last(), contents.drop_last()) + str_bytes(paths.last()) + seq![0u8]
            + content_digest(contents[paths.len() - 1]) + seq![0u8]
    }
}

/// The bytes the worktree fingerprint hashes.
pub open spec fn fingerprint_message(
    status: Seq<u8>,
    diff: Seq<u8>,
    paths: Seq<Seq<char>>,
    contents: Seq<Option<Seq<u8>>>,
) -> Seq<u8> {
    fingerprint_prefix() + status + fingerprint_diff_separator() + diff + fingerprint_untracked_separator()
        + untracked_section(paths, contents)
}

/// The fingerprint: the hex BLAKE3 hash of the fingerprint message.
pub open spec fn fingerprint_of(
    status: Seq<u8>,
    diff: Seq<u8>,
    paths: Seq<Seq<char>>,
    contents: Seq<Option<Seq<u8>>>,
) -> Seq<char> {
    hex_lower(blake3_digest(fingerprint_message(status, diff, paths, contents)))
}

/// The fingerprint hashes, in this order: the tag
/// "cf-worktree-fingerprint-v1\0status\0", the status listing, "\0diff\0",
/// the diff, "\0untracked\0" and the untracked section. The diff is always
/// hashed verbatim, whatever else the worktree holds.
pub proof fn fingerprint_message_layout(
    status: Seq<u8>,
    diff: Seq<u8>,
    paths: Seq<Seq<char>>,
    contents: Seq<Option<Seq<u8>>>,
)
    ensures
        fingerprint_message(status, diff, paths, contents) == seq![
            99u8, 102u8, 45u8, 119u8, 111u8, 114u8, 107u8, 116u8, 114u8, 101u8, 101u8, 45u8, 102u8, 105u8,
            110u8, 103u8, 101u8, 114u8, 112u8, 114u8, 105u8, 110u8, 116u8, 45u8, 118u8, 49u8, 0u8, 115u8,
            116u8, 97u8, 116u8, 117u8, 115u8, 0u8,
        ] + status + seq![0u8, 100u8, 105u8, 102u8, 102u8, 0u8] + diff + seq![
            0u8, 117u8, 110u8, 116u8, 114u8, 97u8, 99u8, 107u8, 101u8, 100u8, 0u8,
        ] + untracked_section(paths, contents),
        fingerprint_message(status, diff, paths, contents).subrange(
            34 + status.len() as int,
            40 + status.len() as int + diff.len() as int,
        ) == seq![0u8, 100u8, 105u8, 102u8, 102u8, 0u8] + diff,
{
    let m = fingerprint_message(status, diff, paths, contents);
    assert(m.subrange(34 + status.len() as int, 40 + status.len() as int + diff.len() as int) =~= seq![
        0u8,
        100u8,
        105u8,
        102u8,
        102u8,
        0u8,
    ] + diff);
}

/// Two worktrees with the same status and untracked files but different
/// diffs hash different messages: edits to tracked files are told apart.
pub proof fn fingerprint_message_tells_diffs_apart(
    status: Seq<u8>,
    diff1: Seq<u8>,
    diff2: Seq<u8>,
    paths: Seq<Seq<char>>,
    contents: Seq<Option<Seq<u8>>>,
)
    requires
        diff1 != diff2,
    ensures
        fingerprint_message(status, diff1, paths, contents) != fingerprint_message(status, diff2, paths, contents),
{
    let m1 = fingerprint_message(status, diff1, paths, contents);
    let m2 = fingerprint_message(status, diff2, paths, contents);
    fingerprint_message_layout(status, diff1, paths, contents);
    fingerprint_message_layout(status, diff2, paths, contents);
    if m1 == m2 {
        if diff1.len() == diff2.len() {
            let d1 = m1.subrange(34 + status.len() as int, 40 + status.len() as int + diff1.len() as int);
            assert(d1.subrange(6, 6 + diff1.len() as int) =~= diff1);
            assert(d1.subrange(6, 6 + diff2.len() as int) =~= diff2);
        } else {
            assert(m1.len() != m2.len());
        }
    }
}

/// Two worktrees with different status listings hash different messages
/// when the rest is the same and the listings have the same length.
pub proof fn fingerprint_message_tells_statuses_apart(
    status1: Seq<u8>,
    status2: Seq<u8>,
    diff: Seq<u8>,
    paths: Seq<Seq<char>>,
    contents: Seq<Option<Seq<u8>>>,
)
    requires
        status1 != status2,
        status1.len() == status2.len(),
    ensures
        fingerprint_message(status1, diff, paths, contents) != fingerprint_message(status2, diff, paths, contents),
{
    let m1 = fingerprint_message(status1, diff, paths, contents);
    let m2 = fingerprint_message(status2, diff, paths, contents);
    if m1 == m2 {
        assert(m1.subrange(34, 34 + status1.len() as int) =~= status1);
        assert(m2.subrange(34, 34 + status2.len() as int) =~= status2);
    }
}

/// The byte contents of a list of optional byte vectors.
pub open spec fn opt_views(v: Seq<Option<Vec<u8>>>) -> Seq<Option<Seq<u8>>> {
    v.map_values(|o: Option<Vec<u8>>| match o {
        Some(b) => Some(b@),
        None => None,
    })
}

fn append_bytes(out: &mut Vec<u8>, src: &[u8])
    ensures
        final(out)@ == old(out)@ + src@,
{
    let mut i: usize = 0;
    while i < src.len()
        invariant
            i <= src@.len(),
            out@ == old(out)@ + src@.take(i as int),
        decreases src@.len() - i,
    {
        proof {
            assert(src@.take(i + 1) =~= src@.take(i as int).push(src@[i as int]));
        }
        out.push(src[i]);
        i = i + 1;
    }
    proof {
        assert(src@.take(src@.len() as int) =~= src@);
    }
}

/// Hashes status, diff and the untracked files (path, then content digest
/// when readable) into the hex worktree fingerprint.
pub fn worktree_fingerprint(
    status: &[u8],
    diff: &[u8],
    paths: &Vec<String>,
    contents: &Vec<Option<Vec<u8>>>,
) -> (r: String)
    requires
        paths@.len() == contents@.len(),
    ensures
        r@ == fingerprint_of(status@, diff@, texts(paths@), opt_views(contents@)),
{
    let prefix: [u8; 34] = [99u8, 102u8, 45u8, 119u8, 111u8, 114u8, 107u8, 116u8, 114u8, 101u8, 101u8, 45u8, 102u8, 105u8, 110u8, 103u8, 101u8, 114u8, 112u8, 114u8, 105u8, 110u8, 116u8, 45u8, 118u8, 49u8, 0u8, 115u8, 116u8, 97u8, 116u8, 117u8, 115u8, 0u8];
    let diff_sep: [u8; 6] = [0u8, 100u8, 105u8, 102u8, 102u8, 0u8];
    let untracked_sep: [u8; 11] = [0u8, 117u8, 110u8, 116u8, 114u8, 97u8, 99u8, 107u8, 101u8, 100u8, 0u8];
    proof {
        assert(prefix@ =~= fingerprint_prefix());
        assert(diff_sep@ =~= fingerprint_diff_separator());
        assert(untracked_sep@ =~= fingerprint_untracked_separator());
    }
    let mut msg: Vec<u8> = Vec::new();
    append_bytes(&mut msg, prefix.as_slice());
    append_bytes(&mut msg, status);
    append_bytes(&mut msg, diff_sep.as_slice());
    append_bytes(&mut msg, diff);
    append_bytes(&mut msg, untracked_sep.as_slice());
    let ghost head = msg@;
    let ghost ps = texts(paths@);
    let ghost cs = opt_views(contents@);
    let mut i: usize = 0;
    proof {
        assert(ps.take(0) =~= Seq::<Seq<char>>::empty());
        assert(msg@ =~= head + untracked_section(ps.take(0), cs.take(0)));
    }
    while i < paths.len()
        invariant
            paths@.len() == contents@.len(),
            ps == texts(paths@),
            cs == opt_views(contents@),
            i <= paths@.len(),
            msg@ == head + untracked_section(ps.take(i as int), cs.take(i as int)),
        decreases paths@.len() - i,
    {
        let ghost before = msg@;
        append_bytes(&mut msg, paths[i].as_str().as_bytes());
        msg.push(0u8);
        match &contents[i] {
            Some(c) => {
                let d = blake3_hash(c.as_slice());
                append_bytes(&mut msg, d.as_slice());
            },
            None => {},
        }
        msg.push(0u8);
        proof {
            let pt = ps.take(i + 1);
            let ct = cs.take(i + 1);
            assert(pt.drop_last() =~= ps.take(i as int));
            assert(ct.drop_last() =~= cs.take(i as int));
            assert(pt.last() == paths@[i as int]@);
            assert(ct[pt.len() - 1] == cs[i as int]);
            assert(msg@ =~= head + untracked_section(pt, ct));
        }
        i = i + 1;
    }
    proof {
        assert(ps.take(paths@.len() as int) =~= ps);
        assert(cs.take(paths@.len() as int) =~= cs);
        assert(msg@ =~= fingerprint_message(status@, diff@, ps, cs));
    }
    let digest = blake3_hash(msg.as_slice());
    to_hex(digest.as_slice())
}

} // verus!

verus! {

// ---------------------------------------------------------------------------
// Worktree evidence
// ---------------------------------------------------------------------------

/// Evidence of the exact dirty worktree state a run was built from.
#[derive(Debug, Clone)]
pub struct GitWorktreeInfo {
    pub dirty: bool,
    pub fingerprint: Option<String>,
    pub dirty_files: Vec<String>,
}

/// A clean worktree: not dirty, no fingerprint, no dirty files.
pub open spec fn is_clean_info(info: GitWorktreeInfo) -> bool {
    !info.dirty && info.fingerprint is None && info.dirty_files@.len() == 0
}

impl Default for GitWorktreeInfo {
    fn default() -> (r: Self)
        ensures
            is_clean_info(r),
    {
        GitWorktreeInfo { dirty: false, fingerprint: None, dirty_files: Vec::new() }
    }
}

/// A fingerprint supplied from outside (for CI) settles the evidence: a
/// non-empty value gives a dirty worktree with that fingerprint and no file
/// list; an absent or empty value gives `None`, and the worktree must be probed.
pub fn worktree_info_from_override(fingerprint: Option<String>) -> (r: Option<GitWorktreeInfo>)
    ensures
        r is Some <==> (fingerprint matches Some(f) && f@.len() > 0),
        r matches Some(info) ==> info.dirty && info.fingerprint == fingerprint && info.dirty_files@.len() == 0,
{
    match fingerprint {
        Some(f) => {
            if f.as_str().is_empty() {
                None
            } else {
                Some(GitWorktreeInfo { dirty: true, fingerprint: Some(f), dirty_files: Vec::new() })
            }
        },
        None => None,
    }
}

/// Builds the worktree evidence from the probe results: the porcelain
/// status (`None` when it could not be taken), the diff against HEAD, the
/// sorted untracked paths and each one's contents (`None` when unreadable).
/// No status, or an empty one, means a clean worktree. Otherwise the worktree
/// is dirty, fingerprinted over everything probed, with the files the status
/// lists; `None` when a status entry's path would start inside a character.
pub fn worktree_info_from_probe(
    status: Option<Vec<u8>>,
    diff: &[u8],
    untracked: &Vec<String>,
    contents: &Vec<Option<Vec<u8>>>,
) -> (r: Option<GitWorktreeInfo>)
    requires
        untracked@.len() == contents@.len(),
    ensures
        match status {
            None => r matches Some(info) && is_clean_info(info),
            Some(s) => if s@.len() == 0 {
                r matches Some(info) && is_clean_info(info)
            } else {
                &&& (r is None <==> status_splits_char(s@))
                &&& r matches Some(info) ==> {
                    &&& info.dirty
                    &&& info.fingerprint matches Some(fp)
                        && fp@ == fingerprint_of(s@, diff@, texts(untracked@), opt_views(contents@))
                    &&& strictly_sorted(info.dirty_files@)
                    &&& key_set(info.dirty_files@) == listed_paths(nul_fields(s@), nul_fields(s@).len() as int)
                }
            },
        },
{
    match status {
        None => Some(GitWorktreeInfo::default()),
        Some(s) => {
            if s.len() == 0 {
                Some(GitWorktreeInfo::default())
            } else {
                let fp = worktree_fingerprint(s.as_slice(), diff, untracked, contents);
                match dirty_files_from_status(s.as_slice()) {
                    Some(files) => Some(GitWorktreeInfo { dirty: true, fingerprint: Some(fp), dirty_files: files }),
                    None => None,
                }
            }
        },
    }
}

} // verus!

verus! {

/// Hex digits are "0"–"9" for 0–9 and "a"–"f" for 10–15.
pub proof fn hex_digits_are_lowercase(n: int)
    requires
        0 <= n < 16,
    ensures
        n < 10 ==> hex_digit(n) as int == '0' as int + n,
        n >= 10 ==> hex_digit(n) as int == 'a' as int + (n - 10),
{
}

/// The hex encoding has two characters per byte: the byte's high nibble,
/// then its low nibble.
pub proof fn hex_lower_layout(d: Seq<u8>)
    ensures
        hex_lower(d).len() == 2 * d.len(),
        forall|i: int|
            0 <= i < d.len() ==> hex_lower(d)[2 * i] == hex_digit(#[trigger] d[i] as int / 16) && hex_lower(d)[2 * i
                + 1] == hex_digit(d[i] as int % 16),
    decreases d.len(),
{
    if d.len() > 0 {
        hex_lower_layout(d.drop_last());
        let h = hex_lower(d);
        let p = hex_lower(d.drop_last());
        assert forall|i: int| 0 <= i < d.len() implies h[2 * i] == hex_digit(#[trigger] d[i] as int / 16) && h[2 * i
            + 1] == hex_digit(d[i] as int % 16) by {
            if i < d.len() - 1 {
                assert(d.drop_last()[i] == d[i]);
                assert(h[2 * i] == p[2 * i]);
                assert(h[2 * i + 1] == p[2 * i + 1]);
            }
        }
    }
}

proof fn lemma_scan_nul_fields(s: Seq<u8>)
    ensures
        forall|i: int|
            0 <= i < scan_nul(s).0.len() ==> (#[trigger] scan_nul(s).0[i]).len() > 0 && !scan_nul(s).0[i].contains(
                0u8,
            ),
        !scan_nul(s).1.contains(0u8),
    decreases s.len(),
{
    if s.len() > 0 {
        lemma_scan_nul_fields(s.drop_last());
        let (done, cur) = scan_nul(s.drop_last());
        if s.last() != 0 {
            assert forall|k: int| 0 <= k < cur.push(s.last()).len() implies cur.push(s.last())[k] != 0u8 by {
                if k < cur.len() {
                    assert(!cur.contains(0u8));
                    assert(cur[k] != 0u8);
                }
            }
        }
    }
}

/// Splitting on NUL gives only non-empty fields, none holding a NUL.
pub proof fn nul_fields_are_nonempty_and_nul_free(s: Seq<u8>)
    ensures
        forall|i: int|
            0 <= i < nul_fields(s).len() ==> (#[trigger] nul_fields(s)[i]).len() > 0 && !nul_fields(s)[i].contains(0u8),
{
    lemma_scan_nul_fields(s);
}

/// A listing without NUL bytes is a single field (or none, when empty).
pub proof fn nul_free_bytes_are_one_field(s: Seq<u8>)
    requires
        !s.contains(0u8),
    ensures
        s.len() > 0 ==> nul_fields(s) == seq![s],
        s.len() == 0 ==> nul_fields(s).len() == 0,
{
    if s.len() > 0 {
        lemma_scan_nul_nul_free(s);
        assert(scan_nul(s).1 =~= s);
    }
}

proof fn lemma_scan_nul_nul_free(s: Seq<u8>)
    requires
        !s.contains(0u8),
    ensures
        scan_nul(s).0.len() == 0,
        scan_nul(s).1 == s,
    decreases s.len(),
{
    if s.len() > 0 {
        assert(!s.drop_last().contains(0u8)) by {
            if s.drop_last().contains(0u8) {
                let k = choose|k: int| 0 <= k < s.drop_last().len() && s.drop_last()[k] == 0u8;
                assert(s[k] == 0u8);
            }
        }
        lemma_scan_nul_nul_free(s.drop_last());
        assert(s.last() != 0u8) by {
            assert(s[s.len() - 1] == s.last());
        }
        assert(s.drop_last().push(s.last()) =~= s);
    }
}

} // verus!

verus! {

/// Each untracked file adds, after the files before it, its path bytes, a
/// NUL, the BLAKE3 digest of its contents (nothing when unreadable) and a
/// NUL; with no untracked files the section is empty.
pub proof fn untracked_section_layout(
    paths: Seq<Seq<char>>,
    contents: Seq<Option<Seq<u8>>>,
    path: Seq<char>,
    content: Option<Seq<u8>>,
)
    requires
        paths.len() == contents.len(),
    ensures
        untracked_section(seq![], seq![]).len() == 0,
        untracked_section(paths.push(path), contents.push(content)) == untracked_section(paths, contents)
            + str_bytes(path) + seq![0u8] + (match content {
            Some(c) => blake3_digest(c),
            None => Seq::<u8>::empty(),
        }) + seq![0u8],
{
    assert(paths.push(path).drop_last() =~= paths);
    assert(contents.push(content).drop_last() =~= contents);
}

} // verus!
