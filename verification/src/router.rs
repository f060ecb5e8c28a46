use vstd::prelude::*;
use vstd::string::StrSliceExecFns;

verus! {

/// How the router classifies a file path for one operation. Each operation
/// implements exactly one extension; the matching binary sibling format is
/// recognized but not implemented; everything else is unknown.
#[derive(Clone, Copy, Debug, PartialEq, Eq, Structural)]
pub enum FormatClass {
    Supported,
    RecognizedUnsupported,
    Unknown,
}

/// The index of the last occurrence of `c` in `s`, if any.
pub open spec fn last_pos(s: Seq<char>, c: char) -> Option<int>
    decreases s.len(),
{
    if s.len() == 0 {
        None
    } else if s[s.len() - 1] == c {
        Some(s.len() - 1)
    } else {
        last_pos(s.drop_last(), c)
    }
}

/// The extension of a path: what follows the last dot of the final path
/// segment, provided that dot is not the segment's first character (a
/// segment that only starts with a dot has no extension). Comparison
/// against it is exact and case-sensitive.
pub open spec fn extension_of(s: Seq<char>) -> Option<Seq<char>> {
    let fstart: int = match last_pos(s, '/') {
        Some(i) => i + 1,
        None => 0,
    };
    match last_pos(s, '.') {
        Some(d) => if d > fstart {
            Some(s.subrange(d + 1, s.len() as int))
        } else {
            None
        },
        None => None,
    }
}

/// The extension a place file must carry.
pub open spec fn place_ext() -> Seq<char> {
    seq!['r', 'b', 'x', 'l', 'x']
}

/// The recognized binary sibling of the place format.
pub open spec fn place_binary_ext() -> Seq<char> {
    seq!['r', 'b', 'x', 'l']
}

/// The extension a model file must carry.
pub open spec fn model_ext() -> Seq<char> {
    seq!['r', 'b', 'x', 'm', 'x']
}

/// The recognized binary sibling of the model format.
pub open spec fn model_binary_ext() -> Seq<char> {
    seq!['r', 'b', 'x', 'm']
}

/// Classification of a path against one operation's supported extension
/// and its recognized binary sibling.
pub open spec fn classify_spec(s: Seq<char>, supported: Seq<char>, binary: Seq<char>) -> FormatClass {
    match extension_of(s) {
        Some(e) => if e == supported {
            FormatClass::Supported
        } else if e == binary {
            FormatClass::RecognizedUnsupported
        } else {
            FormatClass::Unknown
        },
        None => FormatClass::Unknown,
    }
}

spec fn opt_as_int(o: Option<usize>) -> Option<int> {
    match o {
        Some(u) => Some(u as int),
        None => None,
    }
}

proof fn lemma_last_pos_step(s: Seq<char>, c: char, i: int)
    requires
        0 <= i < s.len(),
    ensures
        last_pos(s.subrange(0, i + 1), c) == (if s[i] == c {
            Some(i)
        } else {
            last_pos(s.subrange(0, i), c)
        }),
{
    let t = s.subrange(0, i + 1);
    assert(t[i] == s[i]);
    if s[i] != c {
        assert(t.drop_last() =~= s.subrange(0, i));
    }
}

proof fn lemma_last_pos_in_range(s: Seq<char>, c: char)
    ensures
        match last_pos(s, c) {
            Some(i) => 0 <= i < s.len() && s[i] == c,
            None => true,
        },
    decreases s.len(),
{
    if s.len() > 0 && s[s.len() - 1] != c {
        lemma_last_pos_in_range(s.drop_last(), c);
    }
}

/// One scan of the path: the positions of the last dot and the last slash.
fn last_marks(path: &str) -> (r: (Option<usize>, Option<usize>))
    ensures
        opt_as_int(r.0) == last_pos(path@, '.'),
        opt_as_int(r.1) == last_pos(path@, '/'),
{
    let n = path.unicode_len();
    let mut last_dot: Option<usize> = None;
    let mut last_slash: Option<usize> = None;
    let mut i: usize = 0;
    proof {
        assert(path@.subrange(0, 0) =~= Seq::<char>::empty());
    }
    while i < n
        invariant
            n == path@.len(),
            i <= n,
            opt_as_int(last_dot) == last_pos(path@.subrange(0, i as int), '.'),
            opt_as_int(last_slash) == last_pos(path@.subrange(0, i as int), '/'),
        decreases n - i,
    {
        let c = path.get_char(i);
        proof {
            lemma_last_pos_step(path@, '.', i as int);
            lemma_last_pos_step(path@, '/', i as int);
        }
        if c == '.' {
            last_dot = Some(i);
        } else if c == '/' {
            last_slash = Some(i);
        }
        i += 1;
    }
    proof {
        assert(path@.subrange(0, n as int) =~= path@);
    }
    (last_dot, last_slash)
}

/// Whether the suffix of `path` starting at `start` is the four-character
/// extension `c0 c1 c2 c3`.
fn suffix_is4(path: &str, start: usize, c0: char, c1: char, c2: char, c3: char) -> (r: bool)
    requires
        start <= path@.len(),
        path@.len() <= usize::MAX,
    ensures
        r == (path@.subrange(start as int, path@.len() as int) == seq![c0, c1, c2, c3]),
{
    let n = path.unicode_len();
    let ghost e = path@.subrange(start as int, path@.len() as int);
    if n - start != 4 {
        proof {
            assert(e.len() != 4);
        }
        return false;
    }
    let r = path.get_char(start) == c0 && path.get_char(start + 1) == c1 && path.get_char(
        start + 2,
    ) == c2 && path.get_char(start + 3) == c3;
    proof {
        if r {
            assert(e =~= seq![c0, c1, c2, c3]);
        } else {
            if e == seq![c0, c1, c2, c3] {
                assert(e[0] == c0 && e[1] == c1 && e[2] == c2 && e[3] == c3);
            }
        }
    }
    r
}

/// Whether the suffix of `path` starting at `start` is the five-character
/// extension `c0 c1 c2 c3 c4`.
fn suffix_is5(path: &str, start: usize, c0: char, c1: char, c2: char, c3: char, c4: char) -> (r:
    bool)
    requires
        start <= path@.len(),
        path@.len() <= usize::MAX,
    ensures
        r == (path@.subrange(start as int, path@.len() as int) == seq![c0, c1, c2, c3, c4]),
{
    let n = path.unicode_len();
    let ghost e = path@.subrange(start as int, path@.len() as int);
    if n - start != 5 {
        proof {
            assert(e.len() != 5);
        }
        return false;
    }
    let r = path.get_char(start) == c0 && path.get_char(start + 1) == c1 && path.get_char(
        start + 2,
    ) == c2 && path.get_char(start + 3) == c3 && path.get_char(start + 4) == c4;
    proof {
        if r {
            assert(e =~= seq![c0, c1, c2, c3, c4]);
        } else {
            if e == seq![c0, c1, c2, c3, c4] {
                assert(e[0] == c0 && e[1] == c1 && e[2] == c2 && e[3] == c3 && e[4] == c4);
            }
        }
    }
    r
}

/// The shared scan: both format families use extensions `rbx?x` (XML,
/// supported) and `rbx?` (binary, recognized), differing in one character.
fn classify_path_with(path: &str, fourth: char) -> (r: FormatClass)
    ensures
        r == classify_spec(path@, seq!['r', 'b', 'x', fourth, 'x'], seq!['r', 'b', 'x', fourth]),
{
    let n = path.unicode_len();
    let (last_dot, last_slash) = last_marks(path);
    proof {
        lemma_last_pos_in_range(path@, '.');
        lemma_last_pos_in_range(path@, '/');
        assert(n as nat == path@.len());
    }
    match last_dot {
        None => FormatClass::Unknown,
        Some(d) => {
            let fstart: usize = match last_slash {
                Some(sl) => sl + 1,
                None => 0,
            };
            if d <= fstart {
                FormatClass::Unknown
            } else if suffix_is5(path, d + 1, 'r', 'b', 'x', fourth, 'x') {
                FormatClass::Supported
            } else if suffix_is4(path, d + 1, 'r', 'b', 'x', fourth) {
                FormatClass::RecognizedUnsupported
            } else {
                FormatClass::Unknown
            }
        },
    }
}

/// Classifies `path` for the place operations: `rbxlx` is supported,
/// `rbxl` is the recognized binary sibling.
pub fn classify_place_path(path: &str) -> (r: FormatClass)
    ensures
        r == classify_spec(path@, place_ext(), place_binary_ext()),
{
    proof {
        assert(seq!['r', 'b', 'x', 'l', 'x'] =~= place_ext());
        assert(seq!['r', 'b', 'x', 'l'] =~= place_binary_ext());
    }
    classify_path_with(path, 'l')
}

/// Classifies `path` for the model operations: `rbxmx` is supported,
/// `rbxm` is the recognized binary sibling.
pub fn classify_model_path(path: &str) -> (r: FormatClass)
    ensures
        r == classify_spec(path@, model_ext(), model_binary_ext()),
{
    proof {
        assert(seq!['r', 'b', 'x', 'm', 'x'] =~= model_ext());
        assert(seq!['r', 'b', 'x', 'm'] =~= model_binary_ext());
    }
    classify_path_with(path, 'm')
}

} // verus!
