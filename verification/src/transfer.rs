//! The checks of the dataset transfer tool: where an episode goes, whether its files are all
//! there, whether it fits, and which lines of the copy's output count as files.
use vstd::prelude::*;
use crate::text::{
    find, ends_with, chars_of, find_char, subvec, string_from_chars, ends_with_chars,
    lemma_find_bounds, lemma_find_char_first,
};

verus! {

/// Where to reach a remote destination over SSH.
#[derive(Debug, PartialEq, Eq)]
pub struct SshInfo {
    pub user: String,
    pub pass: String,
    pub host: String,
    pub dir: String,
}

/// Model of a remote destination: user, password, host and directory.
pub open spec fn ssh_view(i: SshInfo) -> (Seq<char>, Seq<char>, Seq<char>, Seq<char>) {
    (i.user@, i.pass@, i.host@, i.dir@)
}

/// The remote destination that `user:password@host:dir` describes (the pattern
/// `^([^:]+):([^@]+)@([^:]+):(.*)$`): the user runs to the first colon, the password to the
/// first `@` after it, the host to the first colon after that, and the directory (without a
/// line break) to the end. Each of the first three is non-empty. `None` for a local path.
pub open spec fn spec_destination(d: Seq<char>) -> Option<(Seq<char>, Seq<char>, Seq<char>, Seq<char>)> {
    match find(d, seq![':']) {
        None => None,
        Some(i) => {
            let r1 = d.subrange(i + 1, d.len() as int);
            match find(r1, seq!['@']) {
                None => None,
                Some(j) => {
                    let r2 = r1.subrange(j + 1, r1.len() as int);
                    match find(r2, seq![':']) {
                        None => None,
                        Some(k) => {
                            let dir = r2.subrange(k + 1, r2.len() as int);
                            if i == 0 || j == 0 || k == 0 || find(dir, seq!['\n']) is Some {
                                None
                            } else {
                                Some((d.subrange(0, i), r1.subrange(0, j), r2.subrange(0, k), dir))
                            }
                        },
                    }
                },
            }
        },
    }
}

/// The first position of `c` in `s` (via `find_char`), with its bounds.
fn find_in(s: &Vec<char>, c: char) -> (r: Option<usize>)
    ensures
        r matches Some(i) ==> find(s@, seq![c]) == Some(i as int) && i < s.len(),
        r is None ==> find(s@, seq![c]) is None,
{
    let r = find_char(s, c);
    proof {
        lemma_find_bounds(s@, seq![c], 0);
    }
    r
}

/// Reads a destination: the remote one it describes, or `None` for a local path.
pub fn destination(d: &str) -> (r: Option<SshInfo>)
    ensures
        match spec_destination(d@) {
            Some(v) => r matches Some(info) && ssh_view(info) == v,
            None => r is None,
        },
{
    let s = chars_of(d);
    let i = match find_in(&s, ':') {
        None => {
            return None;
        },
        Some(i) => i,
    };
    let r1 = subvec(&s, i + 1, s.len());
    let j = match find_in(&r1, '@') {
        None => {
            return None;
        },
        Some(j) => j,
    };
    let r2 = subvec(&r1, j + 1, r1.len());
    let k = match find_in(&r2, ':') {
        None => {
            return None;
        },
        Some(k) => k,
    };
    let dir = subvec(&r2, k + 1, r2.len());
    if i == 0 || j == 0 || k == 0 || find_in(&dir, '\n').is_some() {
        return None;
    }
    Some(SshInfo {
        user: string_from_chars(&subvec(&s, 0, i)),
        pass: string_from_chars(&subvec(&r1, 0, j)),
        host: string_from_chars(&subvec(&r2, 0, k)),
        dir: string_from_chars(&dir),
    })
}

/// Where the copy goes on a remote destination: `user@host:dir`.
pub fn rsync_target(info: &SshInfo) -> (r: String)
    ensures
        r@ == info.user@ + "@"@ + info.host@ + ":"@ + info.dir@,
{
    let mut s = info.user.clone();
    s.append("@");
    s.append(info.host.as_str());
    s.append(":");
    s.append(info.dir.as_str());
    s
}

/// Why a transfer stops.
#[derive(Copy, Clone, Debug, PartialEq, Eq, Structural)]
pub enum TransferError {
    /// The episode does not hold nine CSV files per flow, plus the BioTac's and the
    /// OptoForce's.
    WrongCsvCount,
    /// The episode holds a PNG file for other than each raw data file (beyond the BioTac's,
    /// the OptoForce's and two per flow).
    WrongPngCount,
    /// The destination has less free space than the episode takes.
    NotEnoughSpace,
}

/// Whether the episode's files are all there, from the counts of its raw data files, flow
/// files, PNG files, CSV files, and the BioTac's and OptoForce's CSV files.
pub open spec fn spec_check_counts(dats: nat, flows: nat, pngs: nat, csvs: nat, bcsvs: nat, ocsvs: nat) -> Result<(), TransferError> {
    if csvs != 9 * flows + bcsvs + ocsvs {
        Err(TransferError::WrongCsvCount)
    } else if dats > 0 && pngs != dats - bcsvs - ocsvs - 2 * flows {
        Err(TransferError::WrongPngCount)
    } else {
        Ok(())
    }
}

/// Checks the counts of the episode's files. When there are raw data files, there must be at
/// least as many as the CSV files of the BioTac and OptoForce plus two per flow (the count of
/// PNG files is computed by subtraction).
pub fn check_counts(dats: usize, flows: usize, pngs: usize, csvs: usize, bcsvs: usize, ocsvs: usize) -> (r: Result<(), TransferError>)
    requires
        9 * flows + bcsvs + ocsvs <= usize::MAX,
        csvs == 9 * flows + bcsvs + ocsvs && dats > 0 ==> bcsvs + ocsvs + 2 * flows <= dats,
    ensures
        r == spec_check_counts(dats as nat, flows as nat, pngs as nat, csvs as nat, bcsvs as nat, ocsvs as nat),
{
    if csvs != 9 * flows + bcsvs + ocsvs {
        return Err(TransferError::WrongCsvCount);
    }
    if dats > 0 && pngs != dats - bcsvs - ocsvs - 2 * flows {
        return Err(TransferError::WrongPngCount);
    }
    Ok(())
}

/// Checks that an episode of `size` bytes fits in `free` bytes.
pub fn check_space(size: u64, free: u64) -> (r: Result<(), TransferError>)
    ensures
        size > free ==> r == Err::<(), TransferError>(TransferError::NotEnoughSpace),
        size <= free ==> r is Ok,
{
    if size > free {
        Err(TransferError::NotEnoughSpace)
    } else {
        Ok(())
    }
}

/// Whether a line of the copy's output names a flow, PNG or CSV file.
pub open spec fn spec_counts_as_file(l: Seq<char>) -> bool {
    ends_with(l, ".flow"@) || ends_with(l, ".png"@) || ends_with(l, ".csv"@)
}

/// Whether a line of the copy's output names a flow, PNG or CSV file.
pub fn counts_as_file(line: &str) -> (r: bool)
    ensures
        r == spec_counts_as_file(line@),
{
    let l = chars_of(line);
    ends_with_chars(&l, &chars_of(".flow")) || ends_with_chars(&l, &chars_of(".png"))
        || ends_with_chars(&l, &chars_of(".csv"))
}

/// Whether a character occurs in a text.
pub open spec fn has_char(s: Seq<char>, c: char) -> bool {
    exists|k: int| 0 <= k < s.len() && s[k] == c
}

/// A destination written `user:password@host:dir` reads back as its four parts, whenever the
/// user and the host hold no colon, the password no `@`, the directory no line break, and the
/// first three are not empty.
pub proof fn law_destination_parts(u: Seq<char>, p: Seq<char>, h: Seq<char>, d: Seq<char>)
    requires
        u.len() > 0 && !has_char(u, ':'),
        p.len() > 0 && !has_char(p, '@'),
        h.len() > 0 && !has_char(h, ':'),
        !has_char(d, '\n'),
    ensures
        spec_destination(u + seq![':'] + p + seq!['@'] + h + seq![':'] + d) == Some((u, p, h, d)),
{
    let r2 = h + seq![':'] + d;
    let r1 = p + seq!['@'] + r2;
    let s = u + seq![':'] + r1;
    assert(s =~= u + seq![':'] + p + seq!['@'] + h + seq![':'] + d);
    lemma_find_char_first(s, ':', 0);
    assert(s[u.len() as int] == ':');
    assert forall|k: int| 0 <= k < u.len() implies s[k] != ':' by {
        assert(s[k] == u[k]);
    }
    assert(find(s, seq![':']) == Some(u.len() as int));
    assert(s.subrange(u.len() + 1int, s.len() as int) =~= r1);
    lemma_find_char_first(r1, '@', 0);
    assert(r1[p.len() as int] == '@');
    assert forall|k: int| 0 <= k < p.len() implies r1[k] != '@' by {
        assert(r1[k] == p[k]);
    }
    assert(r1.subrange(p.len() + 1int, r1.len() as int) =~= r2);
    lemma_find_char_first(r2, ':', 0);
    assert(r2[h.len() as int] == ':');
    assert forall|k: int| 0 <= k < h.len() implies r2[k] != ':' by {
        assert(r2[k] == h[k]);
    }
    assert(r2.subrange(h.len() + 1int, r2.len() as int) =~= d);
    lemma_find_char_first(d, '\n', 0);
    assert(s.subrange(0, u.len() as int) =~= u);
    assert(r1.subrange(0, p.len() as int) =~= p);
    assert(r2.subrange(0, h.len() as int) =~= h);
}

} // verus!
