//! The loader's search machinery: configuration-file parsing (comments,
//! blank lines, a directive that splices another file, with star-pattern
//! expansion), the lazily built search-path caches, and module-name
//! resolution. File contents reach these functions as plain values; the
//! caller performs the reads.

use vstd::prelude::*;

use crate::bytes::{
    bytes_eq, concat_bytes, find_byte, has_prefix, has_suffix, rfind_byte, spec_find,
    spec_has_prefix, spec_has_suffix, spec_split, spec_trim, split_ascii, trim_ascii,
};
use crate::error::Error;
use vstd::string::StringSliceAdditionalSpecFns;

verus! {

/// The byte that separates entries inside a built search-path cache.
pub const CACHE_SEPARATOR: u8 = 0x1E;

/// The byte that separates entries in a search-path environment variable
/// (an ASCII colon).
pub const ENV_SEPARATOR: u8 = 0x3A;

/// The byte that starts a comment in a config file (an ASCII hash).
pub const COMMENT_BYTE: u8 = 0x23;

/// The wildcard byte in a config-file pattern (an ASCII star).
pub const GLOB_BYTE: u8 = 0x2A;

/// The path separator (an ASCII slash).
pub const SLASH_BYTE: u8 = 0x2F;

/// The eight ASCII bytes of the directive keyword that splices another
/// config file into this one, trailing space last.
pub open spec fn spec_directive_keyword() -> Seq<u8> {
    seq![0x69u8, 0x6Eu8, 0x63u8, 0x6Cu8, 0x75u8, 0x64u8, 0x65u8, 0x20u8]
}

/// The directive keyword as bytes.
pub fn directive_keyword() -> (r: Vec<u8>)
    ensures
        r@ == spec_directive_keyword(),
{
    let r: Vec<u8> = vec![0x69u8, 0x6Eu8, 0x63u8, 0x6Cu8, 0x75u8, 0x64u8, 0x65u8, 0x20u8];
    proof {
        assert(r@ =~= spec_directive_keyword());
    }
    r
}

/// What one config line means, once its comment is cut and whitespace
/// trimmed.
pub enum ConfigLine {
    /// Nothing left: a blank line or pure comment.
    Empty,
    /// A directive naming another file (or star pattern) to splice here.
    Splice(Vec<u8>),
    /// One search-path entry.
    PathEntry(Vec<u8>),
}

/// The effective text of a line: everything before the first comment byte,
/// trimmed of ASCII whitespace.
pub open spec fn spec_line_effective(line: Seq<u8>) -> Seq<u8> {
    let cut = match spec_find(line, COMMENT_BYTE) {
        Some(i) => line.take(i as int),
        None => line,
    };
    spec_trim(cut)
}

/// Whether the effective text is a splice directive.
pub open spec fn spec_is_splice(eff: Seq<u8>) -> bool {
    spec_has_prefix(eff, spec_directive_keyword())
}

/// The operand of a splice directive.
pub open spec fn spec_splice_operand(eff: Seq<u8>) -> Seq<u8> {
    eff.skip(8)
}

/// Classifies one config line.
pub fn parse_config_line(line: &[u8]) -> (r: ConfigLine)
    ensures
        ({
            let eff = spec_line_effective(line@);
            match r {
                ConfigLine::Empty => eff.len() == 0,
                ConfigLine::Splice(p) => eff.len() > 0 && spec_is_splice(eff) && p@
                    == spec_splice_operand(eff),
                ConfigLine::PathEntry(p) => eff.len() > 0 && !spec_is_splice(eff) && p@ == eff,
            }
        }),
{
    let cut: &[u8] = match find_byte(line, COMMENT_BYTE) {
        Some(i) => vstd::slice::slice_subrange(line, 0, i),
        None => line,
    };
    proof {
        crate::bytes::lemma_spec_find(line@, COMMENT_BYTE);
    }
    let eff = trim_ascii(cut);
    if eff.len() == 0 {
        return ConfigLine::Empty;
    }
    let kw = directive_keyword();
    if has_prefix(eff.as_slice(), kw.as_slice()) {
        let op = vstd::slice::slice_to_vec(
            vstd::slice::slice_subrange(eff.as_slice(), 8, eff.len()),
        );
        return ConfigLine::Splice(op);
    }
    ConfigLine::PathEntry(eff)
}

/// A value model of the files the config machinery may read: full paths
/// and, for each, the file's lines.
pub struct ConfigFs {
    /// The files' full paths, in directory-listing order.
    pub paths: Vec<Vec<u8>>,
    /// Each file's lines, parallel to `paths`.
    pub contents: Vec<Vec<Vec<u8>>>,
}

impl ConfigFs {
    /// One set of lines per path.
    pub open spec fn wf(self) -> bool {
        self.paths.len() == self.contents.len()
    }

    /// The lines of file `i`, as sequences.
    pub open spec fn spec_lines_of(self, i: int) -> Seq<Seq<u8>> {
        self.contents@[i]@.map_values(|l: Vec<u8>| l@)
    }
}

/// The index of the first file whose path is `p`, searching from `i`.
pub open spec fn spec_find_path(paths: Seq<Seq<u8>>, p: Seq<u8>, i: int) -> Option<int>
    decreases paths.len() - i,
{
    if i < 0 || i >= paths.len() {
        None
    } else if paths[i] == p {
        Some(i)
    } else {
        spec_find_path(paths, p, i + 1)
    }
}

/// The indices, in order, of the files whose path starts with `pre` and
/// ends with `suf` — how a star pattern selects files.
pub open spec fn spec_glob_indices(paths: Seq<Seq<u8>>, pre: Seq<u8>, suf: Seq<u8>, i: int) -> Seq<
    int,
>
    decreases paths.len() - i,
{
    if i < 0 || i >= paths.len() {
        seq![]
    } else if spec_has_prefix(paths[i], pre) && spec_has_suffix(paths[i], suf) && paths[i].len()
        >= pre.len() + suf.len() {
        seq![i] + spec_glob_indices(paths, pre, suf, i + 1)
    } else {
        spec_glob_indices(paths, pre, suf, i + 1)
    }
}

/// Sequences first errors: the paths of `a` then of `b`, unless either
/// fails, in which case the earlier failure wins.
pub open spec fn spec_cat(a: Result<Seq<Seq<u8>>, Error>, b: Result<Seq<Seq<u8>>, Error>) -> Result<
    Seq<Seq<u8>>,
    Error,
> {
    match a {
        Err(e) => Err(e),
        Ok(x) => match b {
            Err(e) => Err(e),
            Ok(y) => Ok(x + y),
        },
    }
}

/// The search-path entries a config file contributes, read with `depth` as
/// the remaining splice budget: each line in order contributes its entry,
/// nothing, or the entries of the files it splices in.
pub open spec fn spec_config(fs: ConfigFs, path: Seq<u8>, depth: nat) -> Result<Seq<Seq<u8>>, Error>
    decreases depth, 3int, 0int,
{
    if depth == 0 {
        Err(Error::LoadError)
    } else {
        match spec_find_path(fs.paths@.map_values(|v: Vec<u8>| v@), path, 0) {
            None => Err(Error::ObjectNotFound),
            Some(i) => spec_config_lines(fs, fs.spec_lines_of(i), 0, depth),
        }
    }
}

/// The entries lines `k..` contribute.
pub open spec fn spec_config_lines(fs: ConfigFs, lines: Seq<Seq<u8>>, k: int, depth: nat) -> Result<
    Seq<Seq<u8>>,
    Error,
>
    decreases depth, 1int, lines.len() - k,
{
    if depth == 0 {
        Err(Error::LoadError)
    } else if k < 0 || k >= lines.len() {
        Ok(seq![])
    } else {
        let eff = spec_line_effective(lines[k]);
        let item: Result<Seq<Seq<u8>>, Error> = if eff.len() == 0 {
            Ok(seq![])
        } else if spec_is_splice(eff) {
            let p = spec_splice_operand(eff);
            match spec_find_path(fs.paths@.map_values(|v: Vec<u8>| v@), p, 0) {
                Some(_) => spec_config(fs, p, (depth - 1) as nat),
                None => if spec_find(p, GLOB_BYTE) is Some {
                    let pre = p.take(spec_find(p, GLOB_BYTE)->Some_0 as int);
                    let suf = p.skip(spec_find(p, GLOB_BYTE)->Some_0 as int + 1);
                    spec_glob_files(
                        fs,
                        spec_glob_indices(fs.paths@.map_values(|v: Vec<u8>| v@), pre, suf, 0),
                        0,
                        (depth - 1) as nat,
                    )
                } else {
                    Err(Error::ObjectNotFound)
                },
            }
        } else {
            Ok(seq![eff])
        };
        spec_cat(item, spec_config_lines(fs, lines, k + 1, depth))
    }
}

/// The entries contributed by the files a star pattern selected, in order.
pub open spec fn spec_glob_files(fs: ConfigFs, idxs: Seq<int>, j: int, depth: nat) -> Result<
    Seq<Seq<u8>>,
    Error,
>
    decreases depth, 2int, idxs.len() - j,
{
    if depth == 0 {
        Err(Error::LoadError)
    } else if j < 0 || j >= idxs.len() {
        Ok(seq![])
    } else if 0 <= idxs[j] < fs.contents.len() {
        spec_cat(
            spec_config_lines(fs, fs.spec_lines_of(idxs[j]), 0, depth),
            spec_glob_files(fs, idxs, j + 1, depth),
        )
    } else {
        spec_glob_files(fs, idxs, j + 1, depth)
    }
}

/// Finds the first file with path `p`.
fn find_path(fs: &ConfigFs, p: &[u8]) -> (r: Option<usize>)
    requires
        fs.wf(),
    ensures
        match r {
            Some(i) => spec_find_path(fs.paths@.map_values(|v: Vec<u8>| v@), p@, 0) == Some(
                i as int,
            ) && i < fs.contents.len(),
            None => spec_find_path(fs.paths@.map_values(|v: Vec<u8>| v@), p@, 0) is None,
        },
{
    let ghost ps = fs.paths@.map_values(|v: Vec<u8>| v@);
    let mut i: usize = 0;
    while i < fs.paths.len()
        invariant
            fs.wf(),
            ps == fs.paths@.map_values(|v: Vec<u8>| v@),
            i <= fs.paths.len(),
            spec_find_path(ps, p@, 0) == spec_find_path(ps, p@, i as int),
        decreases fs.paths@.len() - i,
    {
        if bytes_eq(fs.paths[i].as_slice(), p) {
            return Some(i);
        }
        i += 1;
    }
    None
}

/// Reads one config file out of `fs`, appending the search-path entries it
/// contributes to `buf` in order; `depth` bounds splice nesting so that a
/// file that splices itself is an error rather than an endless descent.
pub fn read_config_file(fs: &ConfigFs, path: &[u8], buf: &mut Vec<Vec<u8>>, depth: u32) -> (r:
    Result<(), Error>)
    requires
        fs.wf(),
    ensures
        match spec_config(*fs, path@, depth as nat) {
            Ok(items) => r is Ok && final(buf)@.map_values(|v: Vec<u8>| v@) == old(
                buf,
            )@.map_values(|v: Vec<u8>| v@) + items,
            Err(e) => r == Err::<(), Error>(e),
        },
    decreases depth, 2int,
{
    if depth == 0 {
        return Err(Error::LoadError);
    }
    let i = match find_path(fs, path) {
        Some(i) => i,
        None => {
            return Err(Error::ObjectNotFound);
        },
    };
    let lines = &fs.contents[i];
    proof {
        assert(fs.spec_lines_of(i as int) == lines@.map_values(|l: Vec<u8>| l@));
    }
    process_lines(fs, lines, buf, depth)
}

/// Processes the lines of one file, appending their entries to `buf`.
fn process_lines(fs: &ConfigFs, lines: &Vec<Vec<u8>>, buf: &mut Vec<Vec<u8>>, depth: u32) -> (r:
    Result<(), Error>)
    requires
        fs.wf(),
        depth >= 1,
    ensures
        match spec_config_lines(*fs, lines@.map_values(|l: Vec<u8>| l@), 0, depth as nat) {
            Ok(items) => r is Ok && final(buf)@.map_values(|v: Vec<u8>| v@) == old(
                buf,
            )@.map_values(|v: Vec<u8>| v@) + items,
            Err(e) => r == Err::<(), Error>(e),
        },
    decreases depth, 1int,
{
    let ghost ls = lines@.map_values(|l: Vec<u8>| l@);
    let ghost base = buf@.map_values(|v: Vec<u8>| v@);
    let mut k: usize = 0;
    proof {
        assert(base.skip(base.len() as int) =~= Seq::<Seq<u8>>::empty());
        assert(base.take(base.len() as int) =~= base);
        if spec_config_lines(*fs, ls, 0, depth as nat) is Ok {
            assert(Seq::<Seq<u8>>::empty() + spec_config_lines(*fs, ls, 0, depth as nat)->Ok_0
                =~= spec_config_lines(*fs, ls, 0, depth as nat)->Ok_0);
        }
    }
    while k < lines.len()
        invariant
            fs.wf(),
            depth >= 1,
            k <= lines.len(),
            ls == lines@.map_values(|l: Vec<u8>| l@),
            base.len() <= buf@.len(),
            match spec_config_lines(*fs, ls, k as int, depth as nat) {
                Ok(rest) => spec_config_lines(*fs, ls, 0, depth as nat) matches Ok(all) && all
                    == buf@.map_values(|v: Vec<u8>| v@).skip(base.len() as int) + rest && buf@.map_values(
                    |v: Vec<u8>| v@,
                ).take(base.len() as int) == base,
                Err(e) => spec_config_lines(*fs, ls, 0, depth as nat) == Err::<Seq<Seq<u8>>, Error>(
                    e,
                ),
            },
        decreases lines@.len() - k,
    {
        let ghost done = buf@.map_values(|v: Vec<u8>| v@).skip(base.len() as int);
        let ghost cur = spec_config_lines(*fs, ls, k as int, depth as nat);
        let ghost nxt = spec_config_lines(*fs, ls, k as int + 1, depth as nat);
        let line = &lines[k];
        proof {
            assert(ls[k as int] == line@);
        }
        match parse_config_line(line.as_slice()) {
            ConfigLine::Empty => {
                proof {
                    assert(cur == spec_cat(Ok(seq![]), nxt));
                    if cur is Ok {
                        assert(nxt is Ok);
                        assert(Seq::<Seq<u8>>::empty() + nxt->Ok_0 =~= nxt->Ok_0);
                        assert(cur->Ok_0 == nxt->Ok_0);
                    }
                }
            },
            ConfigLine::PathEntry(p) => {
                let ghost eff = spec_line_effective(ls[k as int]);
                buf.push(p);
                proof {
                    assert(cur == spec_cat(Ok(seq![eff]), nxt));
                    assert(buf@.map_values(|v: Vec<u8>| v@) =~= buf@.map_values(
                        |v: Vec<u8>| v@,
                    ).take(buf@.len() - 1) + seq![eff]);
                    if cur is Ok {
                        assert(nxt is Ok);
                        assert(buf@.map_values(|v: Vec<u8>| v@).take(base.len() as int) =~= base);
                        assert(buf@.map_values(|v: Vec<u8>| v@).skip(base.len() as int)
                            =~= done.push(eff));
                        assert(cur->Ok_0 == seq![eff] + nxt->Ok_0);
                        assert(done + (seq![eff] + nxt->Ok_0) =~= done.push(eff) + nxt->Ok_0);
                    }
                }
            },
            ConfigLine::Splice(p) => {
                let ghost eff = spec_line_effective(ls[k as int]);
                let sub = splice_one(fs, p.as_slice(), buf, depth - 1);
                let ghost subspec = spec_splice_result(*fs, p@, (depth - 1) as nat);
                proof {
                    assert(cur == spec_cat(subspec, nxt));
                }
                match sub {
                    Ok(()) => {
                        proof {
                            let subitems = subspec->Ok_0;
                            assert(buf@.map_values(|v: Vec<u8>| v@).len() == buf@.len());
                            if cur is Ok {
                                assert(nxt is Ok);
                                assert(buf@.map_values(|v: Vec<u8>| v@).take(base.len() as int)
                                    =~= base);
                                assert(buf@.map_values(|v: Vec<u8>| v@).skip(base.len() as int)
                                    =~= done + subitems);
                                assert(cur->Ok_0 == subitems + nxt->Ok_0);
                                assert(done + (subitems + nxt->Ok_0) =~= (done + subitems)
                                    + nxt->Ok_0);
                            }
                        }
                    },
                    Err(e) => {
                        proof {
                            assert(subspec == Err::<Seq<Seq<u8>>, Error>(e));
                            assert(cur == Err::<Seq<Seq<u8>>, Error>(e));
                        }
                        return Err(e);
                    },
                }
            },
        }
        k += 1;
    }
    proof {
        let tail = spec_config_lines(*fs, ls, k as int, depth as nat);
        assert(tail == Ok::<Seq<Seq<u8>>, Error>(Seq::<Seq<u8>>::empty()));
        assert(buf@.map_values(|v: Vec<u8>| v@) =~= base + buf@.map_values(|v: Vec<u8>| v@).skip(
            base.len() as int,
        ));
        assert(buf@.map_values(|v: Vec<u8>| v@).skip(base.len() as int) + Seq::<Seq<u8>>::empty()
            =~= buf@.map_values(|v: Vec<u8>| v@).skip(base.len() as int));
    }
    Ok(())
}

/// What one splice directive contributes.
pub open spec fn spec_splice_result(fs: ConfigFs, p: Seq<u8>, depth: nat) -> Result<
    Seq<Seq<u8>>,
    Error,
> {
    match spec_find_path(fs.paths@.map_values(|v: Vec<u8>| v@), p, 0) {
        Some(_) => spec_config(fs, p, depth),
        None => if spec_find(p, GLOB_BYTE) is Some {
            let pre = p.take(spec_find(p, GLOB_BYTE)->Some_0 as int);
            let suf = p.skip(spec_find(p, GLOB_BYTE)->Some_0 as int + 1);
            spec_glob_files(
                fs,
                spec_glob_indices(fs.paths@.map_values(|v: Vec<u8>| v@), pre, suf, 0),
                0,
                depth,
            )
        } else {
            Err(Error::ObjectNotFound)
        },
    }
}

/// Resolves one splice operand: a known file is read directly; otherwise a
/// star pattern selects every matching file; otherwise the file is missing.
fn splice_one(fs: &ConfigFs, p: &[u8], buf: &mut Vec<Vec<u8>>, depth: u32) -> (r: Result<(), Error>)
    requires
        fs.wf(),
    ensures
        match spec_splice_result(*fs, p@, depth as nat) {
            Ok(items) => r is Ok && final(buf)@.map_values(|v: Vec<u8>| v@) == old(
                buf,
            )@.map_values(|v: Vec<u8>| v@) + items,
            Err(e) => r == Err::<(), Error>(e),
        },
    decreases depth, 3int,
{
    match find_path(fs, p) {
        Some(_) => read_config_file(fs, p, buf, depth),
        None => {
            match find_byte(p, GLOB_BYTE) {
                Some(star) => {
                    if depth == 0 {
                        return Err(Error::LoadError);
                    }
                    let plen = p.len();
                    let pre = vstd::slice::slice_subrange(p, 0, star);
                    let suf = vstd::slice::slice_subrange(p, star + 1, plen);
                    glob_files(fs, pre, suf, buf, depth)
                },
                None => Err(Error::ObjectNotFound),
            }
        },
    }
}

/// Reads, in order, every file whose path matches the star pattern split
/// into `pre` and `suf`.
fn glob_files(fs: &ConfigFs, pre: &[u8], suf: &[u8], buf: &mut Vec<Vec<u8>>, depth: u32) -> (r:
    Result<(), Error>)
    requires
        fs.wf(),
        depth >= 1,
    ensures
        match spec_glob_files(
            *fs,
            spec_glob_indices(fs.paths@.map_values(|v: Vec<u8>| v@), pre@, suf@, 0),
            0,
            depth as nat,
        ) {
            Ok(items) => r is Ok && final(buf)@.map_values(|v: Vec<u8>| v@) == old(
                buf,
            )@.map_values(|v: Vec<u8>| v@) + items,
            Err(e) => r == Err::<(), Error>(e),
        },
    decreases depth, 2int,
{
    let ghost ps = fs.paths@.map_values(|v: Vec<u8>| v@);
    let ghost base = buf@.map_values(|v: Vec<u8>| v@);
    let mut i: usize = 0;
    proof {
        assert(base.skip(base.len() as int) =~= Seq::<Seq<u8>>::empty());
        assert(base.take(base.len() as int) =~= base);
        let full = spec_glob_files(*fs, spec_glob_indices(ps, pre@, suf@, 0), 0, depth as nat);
        if full is Ok {
            assert(Seq::<Seq<u8>>::empty() + full->Ok_0 =~= full->Ok_0);
        }
    }
    while i < fs.paths.len()
        invariant
            fs.wf(),
            depth >= 1,
            i <= fs.paths.len(),
            ps == fs.paths@.map_values(|v: Vec<u8>| v@),
            base.len() <= buf@.len(),
            match spec_glob_files(
                *fs,
                spec_glob_indices(ps, pre@, suf@, i as int),
                0,
                depth as nat,
            ) {
                Ok(rest) => spec_glob_files(
                    *fs,
                    spec_glob_indices(ps, pre@, suf@, 0),
                    0,
                    depth as nat,
                ) matches Ok(all) && all == buf@.map_values(|v: Vec<u8>| v@).skip(
                    base.len() as int,
                ) + rest && buf@.map_values(|v: Vec<u8>| v@).take(base.len() as int) == base,
                Err(e) => spec_glob_files(
                    *fs,
                    spec_glob_indices(ps, pre@, suf@, 0),
                    0,
                    depth as nat,
                ) == Err::<Seq<Seq<u8>>, Error>(e),
            },
        decreases fs.paths@.len() - i,
    {
        let ghost done = buf@.map_values(|v: Vec<u8>| v@).skip(base.len() as int);
        let ghost cur = spec_glob_files(
            *fs,
            spec_glob_indices(ps, pre@, suf@, i as int),
            0,
            depth as nat,
        );
        let ghost nxt = spec_glob_files(
            *fs,
            spec_glob_indices(ps, pre@, suf@, i as int + 1),
            0,
            depth as nat,
        );
        proof {
            lemma_glob_indices_step(*fs, ps, pre@, suf@, i as int, depth as nat);
        }
        let pl = fs.paths[i].len();
        if has_prefix(fs.paths[i].as_slice(), pre) && has_suffix(fs.paths[i].as_slice(), suf) && pl
            >= pre.len() && pl - pre.len() >= suf.len() {
            let ghost subspec = spec_config_lines(*fs, fs.spec_lines_of(i as int), 0, depth as nat);
            proof {
                assert(cur == spec_cat(subspec, nxt));
            }
            let lines = &fs.contents[i];
            proof {
                assert(fs.spec_lines_of(i as int) == lines@.map_values(|l: Vec<u8>| l@));
            }
            let sub = process_lines(fs, lines, buf, depth);
            match sub {
                Ok(()) => {
                    proof {
                        let subitems = subspec->Ok_0;
                        assert(buf@.map_values(|v: Vec<u8>| v@).len() == buf@.len());
                        if cur is Ok {
                            assert(nxt is Ok);
                            assert(buf@.map_values(|v: Vec<u8>| v@).take(base.len() as int)
                                =~= base);
                            assert(buf@.map_values(|v: Vec<u8>| v@).skip(base.len() as int) =~= done
                                + subitems);
                            assert(cur->Ok_0 == subitems + nxt->Ok_0);
                            assert(done + (subitems + nxt->Ok_0) =~= (done + subitems)
                                + nxt->Ok_0);
                        }
                    }
                },
                Err(e) => {
                    proof {
                        assert(subspec == Err::<Seq<Seq<u8>>, Error>(e));
                        assert(cur == Err::<Seq<Seq<u8>>, Error>(e));
                    }
                    return Err(e);
                },
            }
        }
        i += 1;
    }
    proof {
        assert(spec_glob_indices(ps, pre@, suf@, i as int) =~= Seq::<int>::empty());
        assert(buf@.map_values(|v: Vec<u8>| v@) =~= base + buf@.map_values(|v: Vec<u8>| v@).skip(
            base.len() as int,
        ));
        assert(buf@.map_values(|v: Vec<u8>| v@).skip(base.len() as int) + Seq::<Seq<u8>>::empty()
            =~= buf@.map_values(|v: Vec<u8>| v@).skip(base.len() as int));
    }
    Ok(())
}





/// Unfolds one step of the pattern-index selection at position `i`.
proof fn lemma_glob_indices_step(fs: ConfigFs, ps: Seq<Seq<u8>>, pre: Seq<u8>, suf: Seq<u8>, i: int, depth: nat)
    requires
        fs.wf(),
        ps == fs.paths@.map_values(|v: Vec<u8>| v@),
        0 <= i < ps.len(),
        depth >= 1,
    ensures
        (spec_has_prefix(ps[i], pre) && spec_has_suffix(ps[i], suf) && ps[i].len() >= pre.len()
            + suf.len()) ==> spec_glob_files(
            fs,
            spec_glob_indices(ps, pre, suf, i),
            0,
            depth,
        ) == spec_cat(
            spec_config_lines(fs, fs.spec_lines_of(i), 0, depth),
            spec_glob_files(fs, spec_glob_indices(ps, pre, suf, i + 1), 0, depth),
        ),
        !(spec_has_prefix(ps[i], pre) && spec_has_suffix(ps[i], suf) && ps[i].len() >= pre.len()
            + suf.len()) ==> spec_glob_indices(ps, pre, suf, i) == spec_glob_indices(
            ps,
            pre,
            suf,
            i + 1,
        ),
{
    if spec_has_prefix(ps[i], pre) && spec_has_suffix(ps[i], suf) && ps[i].len() >= pre.len()
        + suf.len() {
        let idxs = spec_glob_indices(ps, pre, suf, i);
        let rest = spec_glob_indices(ps, pre, suf, i + 1);
        assert(idxs == seq![i] + rest);
        assert(idxs[0] == i);
        assert(idxs.len() == 1 + rest.len());
        lemma_glob_files_shift(fs, idxs, depth);
        assert(idxs.skip(1) =~= rest);
    }
}

/// The fold over a non-empty index list is the head file followed by the
/// fold over the tail.
proof fn lemma_glob_files_shift(fs: ConfigFs, idxs: Seq<int>, depth: nat)
    requires
        fs.wf(),
        depth >= 1,
        idxs.len() > 0,
        0 <= idxs[0] < fs.contents.len(),
    ensures
        spec_glob_files(fs, idxs, 0, depth) == spec_cat(
            spec_config_lines(fs, fs.spec_lines_of(idxs[0]), 0, depth),
            spec_glob_files(fs, idxs.skip(1), 0, depth),
        ),
{
    lemma_glob_files_tail(fs, idxs, 1, depth);
}

/// Folding from position `j` over `idxs` equals folding from the start of
/// the tail list dropped by `j`.
proof fn lemma_glob_files_tail(fs: ConfigFs, idxs: Seq<int>, j: int, depth: nat)
    requires
        fs.wf(),
        depth >= 1,
        0 <= j <= idxs.len(),
    ensures
        spec_glob_files(fs, idxs, j, depth) == spec_glob_files(fs, idxs.skip(j), 0, depth),
    decreases idxs.len() - j,
{
    if j == 0 {
        assert(idxs.skip(0) =~= idxs);
        lemma_glob_files_same_prefix(fs, idxs, idxs.skip(0), 0, depth);
    } else if j < idxs.len() {
        let t = idxs.skip(j);
        assert(t.len() == idxs.len() - j);
        assert(t[0] == idxs[j]);
        lemma_glob_files_tail(fs, idxs, j + 1, depth);
        lemma_glob_files_tail(fs, t, 1, depth);
        assert(t.skip(1) =~= idxs.skip(j + 1));
    } else {
        assert(idxs.skip(j).len() == 0);
    }
}

/// Folds over equal index lists are equal.
proof fn lemma_glob_files_same_prefix(fs: ConfigFs, a: Seq<int>, b: Seq<int>, j: int, depth: nat)
    requires
        a == b,
    ensures
        spec_glob_files(fs, a, j, depth) == spec_glob_files(fs, b, j, depth),
{
}

/// The ordered entries of one search domain's cache: the environment
/// variable's colon-separated entries first, then whatever the config file
/// contributes; a missing config file contributes nothing.
pub open spec fn spec_build_cache(
    env: Option<Seq<u8>>,
    fs: ConfigFs,
    cfg: Seq<u8>,
    depth: nat,
) -> Result<Seq<Seq<u8>>, Error> {
    let base = match env {
        Some(e) => spec_split(e, ENV_SEPARATOR),
        None => seq![],
    };
    match spec_find_path(fs.paths@.map_values(|v: Vec<u8>| v@), cfg, 0) {
        None => Ok(base),
        Some(_) => spec_cat(Ok(base), spec_config(fs, cfg, depth)),
    }
}

/// Builds one search domain's path list, as the first use of the domain
/// does: the environment list, then the config file and everything it
/// splices in, in order.
pub fn build_search_cache(
    env_value: Option<&Vec<u8>>,
    fs: &ConfigFs,
    config_path: &[u8],
    depth: u32,
) -> (r: Result<Vec<Vec<u8>>, Error>)
    requires
        fs.wf(),
    ensures
        match spec_build_cache(
            match env_value {
                Some(e) => Some(e@),
                None => None,
            },
            *fs,
            config_path@,
            depth as nat,
        ) {
            Ok(items) => r matches Ok(v) && v@.map_values(|v: Vec<u8>| v@) == items,
            Err(e) => r == Err::<Vec<Vec<u8>>, Error>(e),
        },
{
    let mut buf: Vec<Vec<u8>> = match env_value {
        Some(e) => split_ascii(e.as_slice(), ENV_SEPARATOR),
        None => Vec::new(),
    };
    let ghost base = buf@.map_values(|v: Vec<u8>| v@);
    proof {
        if env_value is None {
            assert(base =~= Seq::<Seq<u8>>::empty());
        }
    }
    match find_path(fs, config_path) {
        Some(_) => {
            match read_config_file(fs, config_path, &mut buf, depth) {
                Ok(()) => Ok(buf),
                Err(e) => Err(e),
            }
        },
        None => Ok(buf),
    }
}

/// Whether a directory entry matches a star pattern's base prefix and
/// suffix.
pub open spec fn spec_entry_match(name: Seq<u8>, pfx: Seq<u8>, sfx: Seq<u8>) -> bool {
    spec_has_prefix(name, pfx) && spec_has_suffix(name, sfx)
}

/// The entries matching a star pattern, in listing order.
pub open spec fn spec_glob_entries(names: Seq<Seq<u8>>, pfx: Seq<u8>, sfx: Seq<u8>, i: int) -> Seq<
    Seq<u8>,
>
    decreases names.len() - i,
{
    if i < 0 || i >= names.len() {
        seq![]
    } else if spec_entry_match(names[i], pfx, sfx) {
        seq![names[i]] + spec_glob_entries(names, pfx, sfx, i + 1)
    } else {
        spec_glob_entries(names, pfx, sfx, i + 1)
    }
}

/// Splits a star pattern: the text before the first star splits at its
/// last slash into the directory walked and the entry prefix; the text
/// after the star is the entry suffix.
pub fn split_glob_pattern(pattern: &[u8]) -> (r: (Vec<u8>, Vec<u8>, Vec<u8>))
    ensures
        ({
            let star = spec_find(pattern@, GLOB_BYTE);
            let pre = if star is Some {
                pattern@.take(star->Some_0 as int)
            } else {
                pattern@
            };
            let suf = if star is Some {
                pattern@.skip(star->Some_0 as int + 1)
            } else {
                Seq::<u8>::empty()
            };
            let cut = pre.len() - r.1@.len();
            &&& r.2@ == suf
            &&& r.1@.len() <= pre.len()
            &&& r.1@ == pre.skip(cut)
            &&& (cut > 0 ==> pre[cut - 1] == SLASH_BYTE && r.0@ == pre.take(cut - 1))
            &&& (cut == 0 ==> r.0@.len() == 0)
            &&& forall|j: int| cut <= j < pre.len() ==> pre[j] != SLASH_BYTE
        }),
{
    let plen = pattern.len();
    let (pre, suf): (&[u8], Vec<u8>) = match find_byte(pattern, GLOB_BYTE) {
        Some(star) => (
            vstd::slice::slice_subrange(pattern, 0, star),
            vstd::slice::slice_to_vec(vstd::slice::slice_subrange(pattern, star + 1, plen)),
        ),
        None => (pattern, Vec::new()),
    };
    match rfind_byte(pre, SLASH_BYTE) {
        Some(sl) => {
            let dir = vstd::slice::slice_to_vec(vstd::slice::slice_subrange(pre, 0, sl));
            let base = vstd::slice::slice_to_vec(
                vstd::slice::slice_subrange(pre, sl + 1, pre.len()),
            );
            (dir, base, suf)
        },
        None => {
            let base = vstd::slice::slice_to_vec(pre);
            proof {
                assert(base@ =~= pre@.skip(0));
            }
            (Vec::new(), base, suf)
        },
    }
}

/// Selects, in listing order, the directory entries a star pattern
/// matches: those with the pattern's base prefix and suffix.
pub fn expand_glob(pfx: &[u8], sfx: &[u8], entries: &Vec<Vec<u8>>) -> (r: Vec<Vec<u8>>)
    ensures
        r@.map_values(|v: Vec<u8>| v@) == spec_glob_entries(
            entries@.map_values(|v: Vec<u8>| v@),
            pfx@,
            sfx@,
            0,
        ),
{
    let ghost ns = entries@.map_values(|v: Vec<u8>| v@);
    let mut r: Vec<Vec<u8>> = Vec::new();
    let mut i: usize = 0;
    proof {
        assert(r@.map_values(|v: Vec<u8>| v@) =~= Seq::<Seq<u8>>::empty());
        assert(Seq::<Seq<u8>>::empty() + spec_glob_entries(ns, pfx@, sfx@, 0) =~= spec_glob_entries(
            ns,
            pfx@,
            sfx@,
            0,
        ));
    }
    while i < entries.len()
        invariant
            i <= entries.len(),
            ns == entries@.map_values(|v: Vec<u8>| v@),
            spec_glob_entries(ns, pfx@, sfx@, 0) == r@.map_values(|v: Vec<u8>| v@)
                + spec_glob_entries(ns, pfx@, sfx@, i as int),
        decreases entries@.len() - i,
    {
        let ghost done = r@.map_values(|v: Vec<u8>| v@);
        if has_prefix(entries[i].as_slice(), pfx) && has_suffix(entries[i].as_slice(), sfx) {
            r.push(vstd::slice::slice_to_vec(entries[i].as_slice()));
            proof {
                assert(r@.map_values(|v: Vec<u8>| v@) =~= done.push(ns[i as int]));
                assert(done.push(ns[i as int]) + spec_glob_entries(ns, pfx@, sfx@, i as int + 1)
                    =~= done + (seq![ns[i as int]] + spec_glob_entries(
                    ns,
                    pfx@,
                    sfx@,
                    i as int + 1,
                )));
            }
        }
        i += 1;
    }
    proof {
        assert(spec_glob_entries(ns, pfx@, sfx@, i as int) =~= Seq::<Seq<u8>>::empty());
        assert(r@.map_values(|v: Vec<u8>| v@) + Seq::<Seq<u8>>::empty() =~= r@.map_values(
            |v: Vec<u8>| v@,
        ));
    }
    r
}

/// The candidate file paths a module search probes, in order: each search
/// list entry, a slash, then the module name.
pub fn module_search_paths(list: &Vec<Vec<u8>>, name: &[u8]) -> (r: Vec<Vec<u8>>)
    requires
        forall|i: int|
            0 <= i < list@.len() ==> (#[trigger] list@[i])@.len() + 1 + name@.len() <= usize::MAX,
    ensures
        r@.len() == list@.len(),
        forall|i: int|
            0 <= i < list@.len() ==> (#[trigger] r@[i])@ == list@[i]@ + seq![SLASH_BYTE] + name@,
{
    let mut r: Vec<Vec<u8>> = Vec::new();
    let mut i: usize = 0;
    while i < list.len()
        invariant
            i <= list@.len(),
            r@.len() == i,
            forall|k: int|
                0 <= k < list@.len() ==> (#[trigger] list@[k])@.len() + 1 + name@.len()
                    <= usize::MAX,
            forall|k: int|
                0 <= k < i ==> (#[trigger] r@[k])@ == list@[k]@ + seq![SLASH_BYTE] + name@,
        decreases list@.len() - i,
    {
        let mut p = vstd::slice::slice_to_vec(list[i].as_slice());
        p.push(SLASH_BYTE);
        let p2 = concat_bytes(p.as_slice(), name);
        proof {
            assert(p@ =~= list@[i as int]@ + seq![SLASH_BYTE]);
        }
        r.push(p2);
        i += 1;
    }
    r
}

/// Whether an open attempt's host error lets the search move on to the
/// next candidate (file missing or unreadable) or fails it outright.
pub fn probe_continues(errno: i32) -> (r: bool)
    ensures
        r <==> (errno == 2 || errno == 13),
{
    errno == 2 || errno == 13
}

/// The default subsystems that are always preloaded and must never be
/// resolved independently: a search for one of their names is answered
/// with `AssumePresent` instead of a file.
pub open spec fn spec_is_preloaded(name: Seq<u8>) -> bool {
    ||| name == "libusi-base.so".spec_bytes()
    ||| name == "libusi-thread.so".spec_bytes()
    ||| name == "libusi-io.so".spec_bytes()
    ||| name == "libusi-process.so".spec_bytes()
    ||| name == "libusi-debug.so".spec_bytes()
    ||| name == "libusi-kmgmt.so".spec_bytes()
}

/// Tests a module name against the preloaded-subsystem allow list.
pub fn is_preloaded_subsystem(name: &[u8]) -> (r: bool)
    ensures
        r <==> spec_is_preloaded(name@),
{
    bytes_eq(name, "libusi-base.so".as_bytes()) || bytes_eq(name, "libusi-thread.so".as_bytes())
        || bytes_eq(name, "libusi-io.so".as_bytes()) || bytes_eq(
        name,
        "libusi-process.so".as_bytes(),
    ) || bytes_eq(name, "libusi-debug.so".as_bytes()) || bytes_eq(
        name,
        "libusi-kmgmt.so".as_bytes(),
    )
}

/// Where a subsystem's module comes from.
pub enum ModuleChoice {
    /// An override named an absolute or relative path to open directly.
    OverridePath(Vec<u8>),
    /// An override named an alternate module name to search for.
    OverrideName(Vec<u8>),
    /// No override: the default module name derived from the subsystem.
    DefaultName(Vec<u8>),
}

/// The ASCII bytes of `libwl-lilium-`, the default module-name prefix.
pub open spec fn spec_default_module_prefix() -> Seq<u8> {
    seq![
        0x6Cu8,
        0x69u8,
        0x62u8,
        0x77u8,
        0x6Cu8,
        0x2Du8,
        0x6Cu8,
        0x69u8,
        0x6Cu8,
        0x69u8,
        0x75u8,
        0x6Du8,
        0x2Du8,
    ]
}

/// The ASCII bytes of `.so`, the default module-name suffix.
pub open spec fn spec_default_module_suffix() -> Seq<u8> {
    seq![0x2Eu8, 0x73u8, 0x6Fu8]
}

/// The ASCII bytes of `WL_SUBSYS_`, the override variable prefix.
pub open spec fn spec_override_var_prefix() -> Seq<u8> {
    seq![0x57u8, 0x4Cu8, 0x5Fu8, 0x53u8, 0x55u8, 0x42u8, 0x53u8, 0x59u8, 0x53u8, 0x5Fu8]
}

/// Resolves which module file a subsystem loads from: an override value
/// containing a slash is a path, any other override is a module name, and
/// without an override the default name is the subsystem's name wrapped in
/// the standard prefix and suffix.
pub fn subsystem_module_name(name: &[u8], override_value: Option<&Vec<u8>>) -> (r: ModuleChoice)
    requires
        name@.len() + 16 <= usize::MAX,
    ensures
        match override_value {
            Some(v) => {
                if spec_find(v@, SLASH_BYTE) is Some {
                    r matches ModuleChoice::OverridePath(p) && p@ == v@
                } else {
                    r matches ModuleChoice::OverrideName(p) && p@ == v@
                }
            },
            None => r matches ModuleChoice::DefaultName(p) && p@ == spec_default_module_prefix()
                + name@ + spec_default_module_suffix(),
        },
{
    match override_value {
        Some(v) => {
            if find_byte(v.as_slice(), SLASH_BYTE).is_some() {
                ModuleChoice::OverridePath(vstd::slice::slice_to_vec(v.as_slice()))
            } else {
                ModuleChoice::OverrideName(vstd::slice::slice_to_vec(v.as_slice()))
            }
        },
        None => {
            let pre: Vec<u8> = vec![
                0x6Cu8,
                0x69u8,
                0x62u8,
                0x77u8,
                0x6Cu8,
                0x2Du8,
                0x6Cu8,
                0x69u8,
                0x6Cu8,
                0x69u8,
                0x75u8,
                0x6Du8,
                0x2Du8,
            ];
            let suf: Vec<u8> = vec![0x2Eu8, 0x73u8, 0x6Fu8];
            proof {
                assert(pre@ =~= spec_default_module_prefix());
                assert(suf@ =~= spec_default_module_suffix());
            }
            let head = concat_bytes(pre.as_slice(), name);
            let full = concat_bytes(head.as_slice(), suf.as_slice());
            ModuleChoice::DefaultName(full)
        },
    }
}

/// The environment variable consulted for a subsystem's override: the
/// standard prefix followed by the subsystem's name.
pub fn subsystem_env_var(name: &[u8]) -> (r: Vec<u8>)
    requires
        name@.len() + 10 <= usize::MAX,
    ensures
        r@ == spec_override_var_prefix() + name@,
{
    let pre: Vec<u8> = vec![
        0x57u8,
        0x4Cu8,
        0x5Fu8,
        0x53u8,
        0x55u8,
        0x42u8,
        0x53u8,
        0x59u8,
        0x53u8,
        0x5Fu8,
    ];
    proof {
        assert(pre@ =~= spec_override_var_prefix());
    }
    concat_bytes(pre.as_slice(), name)
}

/// What probing one candidate path produced, as the host reported it.
#[derive(Clone, Copy, Debug, PartialEq, Eq, Structural)]
pub enum ProbeOutcome {
    /// The open failed with this host errno.
    OpenFailed(i32),
    /// The file opened but its class byte is not the host's.
    BadClass,
    /// The file opened but its machine field is not the host's.
    BadMachine,
    /// The file opened but its header could not be read in full.
    ShortRead,
    /// The file opened and its header matches the host.
    Matched,
}

/// What the module search does after probing one candidate.
#[derive(Clone, Copy, Debug, PartialEq, Eq, Structural)]
pub enum SearchStep {
    /// This candidate is the module: keep its descriptor.
    TakeThis,
    /// Move on to the next candidate path.
    TryNext,
    /// Abort the search with this error.
    Fail(Error),
}

/// Decides the module search's next move from one probe: a matching
/// header ends the search; a mismatched or unreadable header moves on, as
/// does a missing or unreadable file; any other open failure aborts. A
/// search that runs out of candidates reports the module missing.
pub fn module_search_step(outcome: ProbeOutcome) -> (r: SearchStep)
    ensures
        outcome == ProbeOutcome::Matched ==> r == SearchStep::TakeThis,
        outcome == ProbeOutcome::BadClass || outcome == ProbeOutcome::BadMachine || outcome
            == ProbeOutcome::ShortRead ==> r == SearchStep::TryNext,
        outcome matches ProbeOutcome::OpenFailed(e) ==> (if e == 2 || e == 13 {
            r == SearchStep::TryNext
        } else {
            r == SearchStep::Fail(crate::error::linux_error_to_lilium_spec(e))
        }),
{
    match outcome {
        ProbeOutcome::Matched => SearchStep::TakeThis,
        ProbeOutcome::BadClass => SearchStep::TryNext,
        ProbeOutcome::BadMachine => SearchStep::TryNext,
        ProbeOutcome::ShortRead => SearchStep::TryNext,
        ProbeOutcome::OpenFailed(e) => {
            if probe_continues(e) {
                SearchStep::TryNext
            } else {
                SearchStep::Fail(crate::error::linux_error_to_lilium(e))
            }
        },
    }
}

/// The cache contract evaluated on the concrete domain of one scenario:
/// an environment list `/a:/b` together with a config file holding `/c`
/// and a directive splicing in a second file that holds `/d` yields
/// exactly the ordered entries `/a, /b, /c, /d`.
pub proof fn lemma_search_cache_scenario(fs: ConfigFs)
    requires
        fs.wf(),
        fs.paths@.map_values(|v: Vec<u8>| v@) == seq![
            seq![0x2Fu8, 0x65u8],
            seq![0x2Fu8, 0x6Fu8],
        ],
        fs.spec_lines_of(0) == seq![
            seq![0x2Fu8, 0x63u8],
            spec_directive_keyword() + seq![0x2Fu8, 0x6Fu8],
        ],
        fs.spec_lines_of(1) == seq![seq![0x2Fu8, 0x64u8]],
    ensures
        spec_build_cache(
            Some(seq![0x2Fu8, 0x61u8, 0x3Au8, 0x2Fu8, 0x62u8]),
            fs,
            seq![0x2Fu8, 0x65u8],
            2,
        ) == Ok::<Seq<Seq<u8>>, Error>(
            seq![
                seq![0x2Fu8, 0x61u8],
                seq![0x2Fu8, 0x62u8],
                seq![0x2Fu8, 0x63u8],
                seq![0x2Fu8, 0x64u8],
            ],
        ),
{
    let env = seq![0x2Fu8, 0x61u8, 0x3Au8, 0x2Fu8, 0x62u8];
    let cfg = seq![0x2Fu8, 0x65u8];
    let other = seq![0x2Fu8, 0x6Fu8];
    let line_c = seq![0x2Fu8, 0x63u8];
    let line_d = seq![0x2Fu8, 0x64u8];
    let splice = spec_directive_keyword() + other;
    let ps = fs.paths@.map_values(|v: Vec<u8>| v@);

    // The environment list splits into /a and /b.
    lemma_split_pair(env);

    // The config path names file 0, the splice operand file 1.
    assert(spec_find_path(ps, cfg, 0) == Some(0int)) by {
        reveal_with_fuel(spec_find_path, 2);
    }
    assert(other[1] != cfg[1]);
    assert(spec_find_path(ps, other, 0) == Some(1int)) by {
        reveal_with_fuel(spec_find_path, 3);
        assert(ps[0] != other);
    }

    // Neither path entry holds a comment byte or surrounding whitespace.
    lemma_plain_entry(line_c);
    lemma_plain_entry(line_d);
    assert(!spec_is_splice(line_c));
    assert(!spec_is_splice(line_d));

    // The splice line's effective text is itself, and its operand is the
    // second file's path.
    assert(spec_find(splice, COMMENT_BYTE) is None) by {
        crate::bytes::lemma_find_none(splice, COMMENT_BYTE);
    }
    assert(spec_trim(splice) == splice) by {
        reveal_with_fuel(crate::bytes::spec_trim_start, 2);
        reveal_with_fuel(crate::bytes::spec_trim_end, 2);
        assert(!crate::bytes::spec_is_ws(splice[0]));
        assert(!crate::bytes::spec_is_ws(splice[splice.len() - 1]));
    }
    assert(spec_line_effective(splice) == splice);
    assert(spec_is_splice(splice)) by {
        assert(splice.take(8) =~= spec_directive_keyword());
    }
    assert(spec_splice_operand(splice) =~= other);

    // The spliced file contributes /d.
    assert(spec_config_lines(fs, fs.spec_lines_of(1), 0, 1) == Ok::<Seq<Seq<u8>>, Error>(
        seq![line_d],
    )) by {
        reveal_with_fuel(spec_config_lines, 3);
        assert(spec_cat(Ok(seq![line_d]), Ok(seq![])) == Ok::<Seq<Seq<u8>>, Error>(
            seq![line_d] + seq![],
        ));
        assert(seq![line_d] + seq![] =~= seq![line_d]);
    }
    assert(spec_config(fs, other, 1) == Ok::<Seq<Seq<u8>>, Error>(seq![line_d])) by {
        reveal_with_fuel(spec_config, 2);
    }

    // The config file contributes /c then the spliced /d.
    assert(spec_config_lines(fs, fs.spec_lines_of(0), 0, 2) == Ok::<Seq<Seq<u8>>, Error>(
        seq![line_c, line_d],
    )) by {
        reveal_with_fuel(spec_config_lines, 4);
        assert(spec_splice_result(fs, other, 1) == Ok::<Seq<Seq<u8>>, Error>(seq![line_d]));
        assert(seq![line_d] + seq![] =~= seq![line_d]);
        assert(seq![line_c] + seq![line_d] =~= seq![line_c, line_d]);
    }
    assert(spec_config(fs, cfg, 2) == Ok::<Seq<Seq<u8>>, Error>(seq![line_c, line_d])) by {
        reveal_with_fuel(spec_config, 2);
    }

    // Environment entries first, config contributions after.
    assert(seq![seq![0x2Fu8, 0x61u8], seq![0x2Fu8, 0x62u8]] + seq![line_c, line_d] =~= seq![
        seq![0x2Fu8, 0x61u8],
        seq![0x2Fu8, 0x62u8],
        line_c,
        line_d,
    ]);
}

/// Splitting the five bytes `/a:/b` on the colon yields /a and /b.
proof fn lemma_split_pair(env: Seq<u8>)
    requires
        env == seq![0x2Fu8, 0x61u8, 0x3Au8, 0x2Fu8, 0x62u8],
    ensures
        spec_split(env, ENV_SEPARATOR) == seq![seq![0x2Fu8, 0x61u8], seq![0x2Fu8, 0x62u8]],
{
    let tail = env.skip(3);
    assert(tail =~= seq![0x2Fu8, 0x62u8]);
    assert(spec_find(env, ENV_SEPARATOR) == Some(2nat)) by {
        crate::bytes::lemma_find_at(env, ENV_SEPARATOR, 2);
    }
    assert(spec_find(tail, ENV_SEPARATOR) is None) by {
        crate::bytes::lemma_find_none(tail, ENV_SEPARATOR);
    }
    assert(spec_split(env, ENV_SEPARATOR) == seq![env.take(2)] + spec_split(
        tail,
        ENV_SEPARATOR,
    )) by {
        reveal_with_fuel(spec_split, 2);
    }
    assert(spec_split(tail, ENV_SEPARATOR) =~= seq![tail]) by {
        reveal_with_fuel(spec_split, 2);
    }
    assert(env.take(2) =~= seq![0x2Fu8, 0x61u8]);
    assert(seq![env.take(2)] + seq![tail] =~= seq![seq![0x2Fu8, 0x61u8], seq![0x2Fu8, 0x62u8]]);
}

/// A two-byte slash-letter entry is its own effective text.
proof fn lemma_plain_entry(line: Seq<u8>)
    requires
        line.len() == 2,
        line[0] == 0x2Fu8,
        0x61 <= line[1] <= 0x7A,
    ensures
        spec_line_effective(line) == line,
{
    crate::bytes::lemma_find_none(line, COMMENT_BYTE);
    assert(spec_trim(line) == line) by {
        reveal_with_fuel(crate::bytes::spec_trim_start, 2);
        reveal_with_fuel(crate::bytes::spec_trim_end, 2);
        assert(!crate::bytes::spec_is_ws(line[0]));
        assert(!crate::bytes::spec_is_ws(line[1]));
    }
}


} // verus!
