//! What the generator of C test files computes: the compilers that a set
//! of targets needs, the name under which another tool knows a target, the
//! numbers that the C code asserts of a type, and the merge of the code
//! for two compilers into one text.

use crate::layout::TypeLayout;
use crate::target::{system_compiler, system_compiler_of, Compiler, Target};
use crate::util::{align_to, is_power_of_two, lemma_round_up_to, round_up_to, BITS_PER_BYTE};
use vstd::prelude::*;
use vstd::string::StringExecFns;

verus! {

/// The index of the first line feed in `s`, or the length of `s` if there
/// is none.
pub open spec fn line_end(s: Seq<char>) -> int
    decreases s.len(),
{
    if s.len() == 0 || s[0] == '\n' {
        0
    } else {
        1 + line_end(s.subrange(1, s.len() as int))
    }
}

/// The lines of the text `s`. A line ends at a line feed, which is not
/// part of it, nor is a carriage return just before that line feed. What
/// follows the last line feed is a line if it is not empty.
pub open spec fn split_lines(s: Seq<char>) -> Seq<Seq<char>>
    decreases s.len(),
{
    if s.len() == 0 {
        Seq::empty()
    } else {
        let end = line_end(s);
        if 0 <= end < s.len() {
            let line = s.subrange(0, end);
            let line = if end > 0 && line[end - 1] == '\r' {
                line.drop_last()
            } else {
                line
            };
            seq![line] + split_lines(s.subrange(end + 1, s.len() as int))
        } else {
            seq![s]
        }
    }
}

/// The text of each string in `v`.
pub open spec fn texts(v: Seq<String>) -> Seq<Seq<char>> {
    Seq::new(v.len(), |i: int| v[i]@)
}

/// `str::lines` of std, with each line in a `String` of its own. The
/// contract says what the documentation of `lines` says: the text is split
/// at each line feed, the line feed and a carriage return just before it
/// are left out, and after the last line feed comes one more line only if
/// it is not empty.
#[verifier::external_body]
fn lines(s: &str) -> (r: Vec<String>)
    ensures
        texts(r@) == split_lines(s@),
{
    let mut r = Vec::new();
    for line in s.lines() {
        r.push(line.to_string());
    }
    r
}

/// The line `s` as text: `s` and a line feed.
pub open spec fn line_text(s: Seq<char>) -> Seq<char> {
    s + "\n"@
}

/// The lines `c[from]` to `c[to - 1]` as text.
pub open spec fn lines_text(c: Seq<Seq<char>>, from: int, to: int) -> Seq<char>
    decreases to - from,
{
    if from >= to {
        Seq::empty()
    } else {
        lines_text(c, from, to - 1) + line_text(c[to - 1])
    }
}

/// The merge of the lines `c` and `m` from the line `c_idx` of `c` and
/// the line `m_idx` of `m` on: the text, and whether the merge comes to
/// its end.
///
/// The line of `m` is held against the line of `c` that lies `c_a` lines
/// after `c_idx`, where `c_a` is the number of lines of `m` in the
/// conditional block that is open, if `is_open` says that one is. If the
/// two are equal, an open block is closed: `#else`, the `c_a` lines of
/// `c` that were passed over, `#endif`; then comes the line itself. If
/// they differ, `#ifdef MSVC` opens a block unless one is open, and the
/// line of `m` comes. The merge is at its end when `c` or `m` has no line
/// left, and it breaks off, with the text so far, where `c` has no line
/// to hold against.
pub open spec fn merge_from(
    c: Seq<Seq<char>>,
    m: Seq<Seq<char>>,
    c_idx: int,
    m_idx: int,
    c_a: int,
    is_open: bool,
) -> (Seq<char>, bool)
    decreases m.len() - m_idx,
{
    if c_idx >= c.len() || m_idx >= m.len() || c_idx < 0 || m_idx < 0 || c_a < 0 {
        (Seq::empty(), true)
    } else if c_idx + c_a >= c.len() {
        (Seq::empty(), false)
    } else if c[c_idx + c_a] == m[m_idx] {
        let closing = if is_open {
            line_text("#else"@) + lines_text(c, c_idx, c_idx + c_a) + line_text("#endif"@)
        } else {
            Seq::empty()
        };
        let rest = merge_from(c, m, c_idx + c_a + 1, m_idx + 1, 0, false);
        (closing + line_text(c[c_idx + c_a]) + rest.0, rest.1)
    } else {
        let opening = if is_open {
            Seq::empty()
        } else {
            line_text("#ifdef MSVC"@)
        };
        let rest = merge_from(c, m, c_idx, m_idx + 1, c_a + 1, true);
        (opening + line_text(m[m_idx]) + rest.0, rest.1)
    }
}

/// The merge of the lines `c` of code for all compilers but one and the
/// lines `m` of code for the Microsoft compiler: the lines that both
/// have, and, where they differ, the lines of `m` and those of `c` as the
/// two branches of a conditional block.
pub open spec fn merged(c: Seq<Seq<char>>, m: Seq<Seq<char>>) -> Seq<char> {
    merge_from(c, m, 0, 0, 0, false).0
}

/// Whether the merge of `c` and `m` comes to its end: it does not break
/// off for want of a line of `c` to hold a line of `m` against.
pub open spec fn merge_completes(c: Seq<Seq<char>>, m: Seq<Seq<char>>) -> bool {
    merge_from(c, m, 0, 0, 0, false).1
}

/// Whether `c` has no line, `m` has no more lines than `c`, or the last
/// line of `c` is the line of `m` at its place.
pub open spec fn last_lines_agree(c: Seq<Seq<char>>, m: Seq<Seq<char>>) -> bool {
    c.len() == 0 || m.len() <= c.len() || c[c.len() - 1] == m[c.len() - 1]
}

/// As long as the line of `m` that is next is held against a line of `c`,
/// the merge from there on comes to its end just where the last lines
/// agree.
proof fn lemma_merge_from_completes(
    c: Seq<Seq<char>>,
    m: Seq<Seq<char>>,
    c_idx: int,
    m_idx: int,
    c_a: int,
    is_open: bool,
)
    requires
        0 <= c_idx,
        0 <= c_a,
        c_idx + c_a == m_idx,
        m_idx < c.len(),
    ensures
        merge_from(c, m, c_idx, m_idx, c_a, is_open).1 == last_lines_agree(c, m),
    decreases m.len() - m_idx,
{
    reveal_with_fuel(merge_from, 2);
    if m_idx < m.len() && m_idx + 1 < c.len() {
        if c[c_idx + c_a] == m[m_idx] {
            lemma_merge_from_completes(c, m, c_idx + c_a + 1, m_idx + 1, 0, false);
        } else {
            lemma_merge_from_completes(c, m, c_idx, m_idx + 1, c_a + 1, true);
        }
    }
}

/// The merge of `c` and `m` comes to its end just where `c` has no line,
/// `m` has no more lines than `c`, or the last line of `c` is the line of
/// `m` at its place.
pub proof fn lemma_merge_completes(c: Seq<Seq<char>>, m: Seq<Seq<char>>)
    ensures
        merge_completes(c, m) == last_lines_agree(c, m),
{
    if c.len() > 0 {
        lemma_merge_from_completes(c, m, 0, 0, 0, false);
    }
}

/// Whether the merge of the lines `c` and `m` comes to its end.
pub fn can_merge(c: &Vec<String>, m: &Vec<String>) -> (r: bool)
    ensures
        r == merge_completes(texts(c@), texts(m@)),
{
    proof {
        lemma_merge_completes(texts(c@), texts(m@));
    }
    if c.len() == 0 || m.len() <= c.len() {
        true
    } else {
        let last = c.len() - 1;
        assert(texts(c@)[last as int] == c[last as int]@);
        assert(texts(m@)[last as int] == m[last as int]@);
        c[last] == m[last]
    }
}

/// Adds the line `s` to `out`.
fn write_line(out: &mut String, s: &str)
    ensures
        final(out)@ == old(out)@ + line_text(s@),
{
    out.append(s);
    out.append("\n");
    assert(out@ =~= old(out)@ + line_text(s@));
}

/// Adds to `out` the merge of the lines `c` and `m`, which has to come to
/// its end.
pub fn merge_lines(c: &Vec<String>, m: &Vec<String>, out: &mut String)
    requires
        merge_completes(texts(c@), texts(m@)),
    ensures
        final(out)@ == old(out)@ + merged(texts(c@), texts(m@)),
{
    let ghost cs = texts(c@);
    let ghost ms = texts(m@);
    let ghost all = merge_from(cs, ms, 0, 0, 0, false);
    let mut c_idx: usize = 0;
    let mut m_idx: usize = 0;
    let mut c_a: usize = 0;
    let mut is_open = false;
    assert(out@ =~= old(out)@ + Seq::<char>::empty());
    while c_idx < c.len() && m_idx < m.len()
        invariant
            cs == texts(c@),
            ms == texts(m@),
            c_idx <= c.len(),
            m_idx <= m.len(),
            c_a <= m_idx,
            !is_open ==> c_a == 0,
            all == merge_from(cs, ms, 0, 0, 0, false),
            merge_from(cs, ms, c_idx as int, m_idx as int, c_a as int, is_open).1,
            old(out)@ + all.0 == out@ + merge_from(
                cs,
                ms,
                c_idx as int,
                m_idx as int,
                c_a as int,
                is_open,
            ).0,
        decreases m.len() - m_idx,
    {
        let ghost before = out@;
        let ghost here = merge_from(cs, ms, c_idx as int, m_idx as int, c_a as int, is_open);
        assert(c_idx + c_a < c.len());
        assert(cs[c_idx + c_a] == c[c_idx + c_a]@);
        assert(ms[m_idx as int] == m[m_idx as int]@);
        if c[c_idx + c_a] == m[m_idx] {
            let cur = c_idx + c_a;
            if is_open {
                write_line(out, "#else");
                let ghost start = c_idx;
                let ghost opened = out@;
                assert(out@ =~= opened + lines_text(cs, start as int, c_idx as int));
                while c_idx < cur
                    invariant
                        cs == texts(c@),
                        start <= c_idx <= cur < c.len(),
                        out@ == opened + lines_text(cs, start as int, c_idx as int),
                    decreases cur - c_idx,
                {
                    assert(cs[c_idx as int] == c[c_idx as int]@);
                    write_line(out, c[c_idx].as_str());
                    c_idx += 1;
                    assert(out@ =~= opened + lines_text(cs, start as int, c_idx as int));
                }
                write_line(out, "#endif");
                is_open = false;
                c_a = 0;
            }
            assert(c_idx == cur);
            write_line(out, c[c_idx].as_str());
            c_idx += 1;
            m_idx += 1;
            let ghost rest = merge_from(cs, ms, c_idx as int, m_idx as int, 0, false);
            assert(out@ + rest.0 =~= before + here.0);
        } else {
            if !is_open {
                is_open = true;
                write_line(out, "#ifdef MSVC");
            }
            write_line(out, m[m_idx].as_str());
            m_idx += 1;
            c_a += 1;
            let ghost rest = merge_from(cs, ms, c_idx as int, m_idx as int, c_a as int, true);
            assert(out@ + rest.0 =~= before + here.0);
        }
    }
    assert(old(out)@ + all.0 =~= out@);
}

/// Adds to `out_str` the merge of the C code `c` for all compilers but
/// one and the C code `m` for the Microsoft compiler, line by line. The
/// merge of their lines has to come to its end.
pub fn merge_two(c: String, m: String, out_str: &mut String)
    requires
        merge_completes(split_lines(c@), split_lines(m@)),
    ensures
        final(out_str)@ == old(out_str)@ + merged(split_lines(c@), split_lines(m@)),
{
    let c_v = lines(c.as_str());
    let m_v = lines(m.as_str());
    merge_lines(&c_v, &m_v, out_str)
}

/// Adds to `out_str` the merge of the C code `c` and the C code `m` if
/// the merge of their lines comes to its end, and says whether it does.
/// If it does not, `out_str` stays as it is.
pub fn try_merge_two(c: String, m: String, out_str: &mut String) -> (done: bool)
    ensures
        done == merge_completes(split_lines(c@), split_lines(m@)),
        final(out_str)@ == if done {
            old(out_str)@ + merged(split_lines(c@), split_lines(m@))
        } else {
            old(out_str)@
        },
{
    let c_v = lines(c.as_str());
    let m_v = lines(m.as_str());
    if can_merge(&c_v, &m_v) {
        merge_lines(&c_v, &m_v, out_str);
        true
    } else {
        false
    }
}

/// Whether `compiler` is the system compiler of one of `targets`.
pub open spec fn is_system_compiler_in(targets: Seq<Target>, compiler: Compiler) -> bool {
    exists|i: int| 0 <= i < targets.len() && system_compiler_of(#[trigger] targets[i]) == compiler
}

/// The compilers that C code is generated for.
#[derive(Clone, Copy, Debug, PartialEq, Eq)]
pub struct Compilers {
    pub gcc: bool,
    pub clang: bool,
    pub msvc: bool,
}

/// The compilers that C code is generated for if it is to be checked on
/// `targets`: the system compilers of the targets, but GCC only where
/// Clang is not among them.
pub open spec fn compilers_of(targets: Seq<Target>) -> Compilers {
    Compilers {
        gcc: is_system_compiler_in(targets, Compiler::Gcc) && !is_system_compiler_in(
            targets,
            Compiler::Clang,
        ),
        clang: is_system_compiler_in(targets, Compiler::Clang),
        msvc: is_system_compiler_in(targets, Compiler::Msvc),
    }
}

/// The compilers that C code is generated for if it is to be checked on
/// `targets`.
pub fn compilers(targets: &Vec<Target>) -> (r: Compilers)
    ensures
        r == compilers_of(targets@),
{
    let mut gcc = false;
    let mut clang = false;
    let mut msvc = false;
    let mut i: usize = 0;
    while i < targets.len()
        invariant
            i <= targets.len(),
            gcc == is_system_compiler_in(targets@.take(i as int), Compiler::Gcc),
            clang == is_system_compiler_in(targets@.take(i as int), Compiler::Clang),
            msvc == is_system_compiler_in(targets@.take(i as int), Compiler::Msvc),
        decreases targets.len() - i,
    {
        let ghost before = targets@.take(i as int);
        let ghost after = targets@.take(i + 1);
        proof {
            assert(after[i as int] == targets@[i as int]);
            assert forall|c: Compiler| is_system_compiler_in(after, c) <==> (is_system_compiler_in(
                before,
                c,
            ) || system_compiler_of(targets@[i as int]) == c) by {
                if is_system_compiler_in(before, c) {
                    let k = choose|k: int|
                        0 <= k < before.len() && system_compiler_of(#[trigger] before[k]) == c;
                    assert(after[k] == before[k]);
                }
                if is_system_compiler_in(after, c) {
                    let k = choose|k: int|
                        0 <= k < after.len() && system_compiler_of(#[trigger] after[k]) == c;
                    if k < i {
                        assert(before[k] == after[k]);
                    }
                }
            }
        }
        match system_compiler(targets[i]) {
            Compiler::Gcc => {
                gcc = true;
            },
            Compiler::Clang => {
                clang = true;
            },
            Compiler::Msvc => {
                msvc = true;
            },
        }
        i += 1;
    }
    assert(targets@.take(targets.len() as int) =~= targets@);
    Compilers { gcc: gcc && !clang, clang, msvc }
}

/// Whether the text `needle` occurs in the text `hay`.
pub open spec fn occurs_in_text(needle: Seq<char>, hay: Seq<char>) -> bool {
    exists|i: int|
        0 <= i && i + needle.len() <= hay.len() && #[trigger] hay.subrange(
            i,
            i + needle.len(),
        ) == needle
}

/// `str::contains` of std, for a pattern that is a string. The contract
/// says what its documentation says: whether the pattern matches a part
/// of the string.
#[verifier::external_body]
fn contains(hay: &str, needle: &str) -> (r: bool)
    ensures
        r == occurs_in_text(needle@, hay@),
{
    hay.contains(needle)
}

/// The name by which the other tool knows a target: the one that it has
/// for our name of the target, `ours`, or the one that it has for the
/// name that the Rust compiler gives the target, `rust`. Where it has
/// both, ours counts, but for Windows and UEFI, where that of the Rust
/// compiler does.
pub open spec fn mapped_name_of(ours: Option<Seq<char>>, rust: Option<Seq<char>>) -> Option<
    Seq<char>,
> {
    match (ours, rust) {
        (Some(r), None) => Some(r),
        (None, Some(u)) => Some(u),
        (Some(r), Some(u)) => if occurs_in_text("windows"@, r) || occurs_in_text("uefi"@, r) {
            Some(u)
        } else {
            Some(r)
        },
        (None, None) => None,
    }
}

/// The text of a string that may be there.
pub open spec fn text_of(s: Option<&String>) -> Option<Seq<char>> {
    match s {
        Some(s) => Some(s@),
        None => None,
    }
}

/// The name by which the other tool knows a target, from the name `ours`
/// that it has for our name of the target and the name `rust` that it has
/// for the name that the Rust compiler gives the target.
pub fn mapped_name(ours: Option<&String>, rust: Option<&String>) -> (r: Option<String>)
    ensures
        (match r {
            Some(s) => Some(s@),
            None => None,
        }) == mapped_name_of(text_of(ours), text_of(rust)),
{
    match (ours, rust) {
        (Some(r), None) => Some(r.clone()),
        (None, Some(u)) => Some(u.clone()),
        (Some(r), Some(u)) => {
            if contains(r.as_str(), "windows") || contains(r.as_str(), "uefi") {
                Some(u.clone())
            } else {
                Some(r.clone())
            }
        },
        (None, None) => None,
    }
}

/// The numbers, in bytes, that the generated C code asserts of a type.
#[derive(Clone, Copy, Debug, PartialEq, Eq)]
pub struct Assertions {
    /// The size of the type.
    pub size: u64,
    /// The alignment of the type.
    pub alignment: u64,
    /// The size of a struct of a byte and the type.
    pub extra_alignment_size: u64,
    /// The size of a packed struct of a byte and the type.
    pub extra_required_alignment_size: u64,
    /// The size of a packed struct of a byte, the type and a byte.
    pub extra_size: u64,
}

/// The numbers that the generated C code asserts of a type of the layout
/// `layout`. A struct of a byte and the type is as large as the type,
/// rounded up to its alignment, and its alignment; packed, such a struct
/// is as large as what it holds.
pub open spec fn assertions_of(layout: TypeLayout) -> Assertions {
    let alignment = layout.field_alignment_bits / BITS_PER_BYTE;
    let size = layout.size_bits / BITS_PER_BYTE;
    let rounded = if size > 0 {
        round_up_to(size as int, alignment as int)
    } else {
        0
    };
    Assertions {
        size,
        alignment,
        extra_alignment_size: (rounded + alignment) as u64,
        extra_required_alignment_size: (size + 1) as u64,
        extra_size: (size + 2) as u64,
    }
}

/// The numbers that the generated C code asserts of a type of the layout
/// `layout`. The alignment of a type that is not empty has to be a power
/// of two, counted in bytes.
pub fn assertions(layout: &TypeLayout) -> (r: Assertions)
    requires
        layout.size_bits / BITS_PER_BYTE > 0 ==> is_power_of_two(
            (layout.field_alignment_bits / BITS_PER_BYTE) as int,
        ),
    ensures
        r == assertions_of(*layout),
{
    let alignment = layout.field_alignment_bits / BITS_PER_BYTE;
    let size = layout.size_bits / BITS_PER_BYTE;
    let rounded = if size > 0 {
        proof {
            lemma_round_up_to(size as int, alignment as int);
        }
        match align_to(size, alignment) {
            Some(d) => d,
            None => 0,
        }
    } else {
        0
    };
    Assertions {
        size,
        alignment,
        extra_alignment_size: rounded + alignment,
        extra_required_alignment_size: size + 1,
        extra_size: size + 2,
    }
}

} // verus!
