use vstd::prelude::*;

use vstd::string::StringExecFns;

verus! {

/// The text spelled by a list of lines, in order.
pub open spec fn concat_lines(ls: Seq<Seq<char>>) -> Seq<char>
    decreases ls.len(),
{
    if ls.len() == 0 {
        Seq::empty()
    } else {
        concat_lines(ls.drop_last()) + ls.last()
    }
}

/// The `n` characters of `text` from position `i` on.
pub open spec fn piece_at(text: Seq<char>, i: int, n: int) -> Seq<char> {
    text.subrange(i, i + n)
}

/// `part` occurs in `text` as a contiguous piece.
pub open spec fn contains_text(text: Seq<char>, part: Seq<char>) -> bool {
    exists|i: int|
        0 <= i <= text.len() - part.len() && #[trigger] piece_at(text, i, part.len() as int)
            == part
}

/// The integer widths that have an interval type, by their primitive's name.
pub open spec fn widths() -> Seq<Seq<char>> {
    seq![
        "u8"@,
        "i8"@,
        "u16"@,
        "u32"@,
        "u64"@,
        "u128"@,
        "usize"@,
        "i16"@,
        "i32"@,
        "i64"@,
        "i128"@,
        "isize"@,
    ]
}

/// An ASCII lower-case letter made upper-case; any other character unchanged.
pub open spec fn upper(c: char) -> char {
    if 'a' <= c <= 'z' {
        (c as int - 32) as char
    } else {
        c
    }
}

/// The interval type of a width: the primitive's name with a capital first letter,
/// followed by `CO` (`u16` gives `U16CO`, `usize` gives `UsizeCO`).
pub open spec fn interval_name(ty: Seq<char>) -> Seq<char> {
    seq![upper(ty[0])] + ty.skip(1) + "CO"@
}

/// The line that declares the module of a width.
pub open spec fn mod_line(ty: Seq<char>) -> Seq<char> {
    "mod "@ + ty + ";\n"@
}

/// The line that re-exports the interval type of a width from its module.
pub open spec fn use_line(ty: Seq<char>) -> Seq<char> {
    "pub use "@ + ty + "::"@ + interval_name(ty) + ";\n"@
}

/// The lines of the crate root that follow its header.
pub open spec fn lines() -> Seq<Seq<char>> {
    seq![
        "mod res;\n"@,
        "mod u8;\n"@,
        "mod i8;\n"@,
        "mod u16;\n"@,
        "mod u32;\n"@,
        "mod u64;\n"@,
        "mod u128;\n"@,
        "mod usize;\n"@,
        "mod i16;\n"@,
        "mod i32;\n"@,
        "mod i64;\n"@,
        "mod i128;\n"@,
        "mod isize;\n"@,
        "\n"@,
        "pub use res::{OneTwo, ZeroOneTwo};\n"@,
        "pub use u8::U8CO;\n"@,
        "pub use i8::I8CO;\n"@,
        "pub use u16::U16CO;\n"@,
        "pub use u32::U32CO;\n"@,
        "pub use u64::U64CO;\n"@,
        "pub use u128::U128CO;\n"@,
        "pub use usize::UsizeCO;\n"@,
        "pub use i16::I16CO;\n"@,
        "pub use i32::I32CO;\n"@,
        "pub use i64::I64CO;\n"@,
        "pub use i128::I128CO;\n"@,
        "pub use isize::IsizeCO;\n"@,
    ]
}

/// The text of the crate root that follows its header: one module per integer width,
/// the result containers, and a re-export of each interval type.
pub open spec fn lib_rs_text() -> Seq<char> {
    concat_lines(lines())
}

/// Every line of a list occurs in the text the list spells.
pub proof fn lemma_concat_contains(ls: Seq<Seq<char>>, k: int)
    requires
        0 <= k < ls.len(),
    ensures
        contains_text(concat_lines(ls), ls[k]),
    decreases ls.len(),
{
    let a = concat_lines(ls.drop_last());
    let t = concat_lines(ls);
    assert(t == a + ls.last());
    if k == ls.len() - 1 {
        assert(piece_at(t, a.len() as int, ls[k].len() as int) =~= ls[k]);
    } else {
        lemma_concat_contains(ls.drop_last(), k);
        assert(ls.drop_last()[k] == ls[k]);
        let i = choose|i: int|
            0 <= i <= a.len() - ls[k].len() && #[trigger] piece_at(a, i, ls[k].len() as int)
                == ls[k];
        assert(piece_at(t, i, ls[k].len() as int) =~= piece_at(a, i, ls[k].len() as int));
    }
}

/// The crate root declares the module of every width and re-exports from it the
/// interval type of that same width.
pub proof fn lemma_crate_root_lists_every_width()
    ensures
        forall|j: int|
            0 <= j < widths().len() ==> contains_text(
                lib_rs_text(),
                #[trigger] mod_line(widths()[j]),
            ) && contains_text(lib_rs_text(), use_line(widths()[j])),
{
    reveal_strlit("mod ");
    reveal_strlit(";\n");
    reveal_strlit("pub use ");
    reveal_strlit("::");
    reveal_strlit("CO");
    assert forall|j: int| 0 <= j < widths().len() implies contains_text(
        lib_rs_text(),
        #[trigger] mod_line(widths()[j]),
    ) && contains_text(lib_rs_text(), use_line(widths()[j])) by {
        if j == 0 {
            reveal_strlit("u8");
            reveal_strlit("mod u8;\n");
            reveal_strlit("pub use u8::U8CO;\n");
            assert(lines()[1] =~= mod_line(widths()[j]));
            assert(lines()[15] =~= use_line(widths()[j]));
            lemma_concat_contains(lines(), 1);
            lemma_concat_contains(lines(), 15);
        } else if j == 1 {
            reveal_strlit("i8");
            reveal_strlit("mod i8;\n");
            reveal_strlit("pub use i8::I8CO;\n");
            assert(lines()[2] =~= mod_line(widths()[j]));
            assert(lines()[16] =~= use_line(widths()[j]));
            lemma_concat_contains(lines(), 2);
            lemma_concat_contains(lines(), 16);
        } else if j == 2 {
            reveal_strlit("u16");
            reveal_strlit("mod u16;\n");
            reveal_strlit("pub use u16::U16CO;\n");
            assert(lines()[3] =~= mod_line(widths()[j]));
            assert(lines()[17] =~= use_line(widths()[j]));
            lemma_concat_contains(lines(), 3);
            lemma_concat_contains(lines(), 17);
        } else if j == 3 {
            reveal_strlit("u32");
            reveal_strlit("mod u32;\n");
            reveal_strlit("pub use u32::U32CO;\n");
            assert(lines()[4] =~= mod_line(widths()[j]));
            assert(lines()[18] =~= use_line(widths()[j]));
            lemma_concat_contains(lines(), 4);
            lemma_concat_contains(lines(), 18);
        } else if j == 4 {
            reveal_strlit("u64");
            reveal_strlit("mod u64;\n");
            reveal_strlit("pub use u64::U64CO;\n");
            assert(lines()[5] =~= mod_line(widths()[j]));
            assert(lines()[19] =~= use_line(widths()[j]));
            lemma_concat_contains(lines(), 5);
            lemma_concat_contains(lines(), 19);
        } else if j == 5 {
            reveal_strlit("u128");
            reveal_strlit("mod u128;\n");
            reveal_strlit("pub use u128::U128CO;\n");
            assert(lines()[6] =~= mod_line(widths()[j]));
            assert(lines()[20] =~= use_line(widths()[j]));
            lemma_concat_contains(lines(), 6);
            lemma_concat_contains(lines(), 20);
        } else if j == 6 {
            reveal_strlit("usize");
            reveal_strlit("mod usize;\n");
            reveal_strlit("pub use usize::UsizeCO;\n");
            assert(lines()[7] =~= mod_line(widths()[j]));
            assert(lines()[21] =~= use_line(widths()[j]));
            lemma_concat_contains(lines(), 7);
            lemma_concat_contains(lines(), 21);
        } else if j == 7 {
            reveal_strlit("i16");
            reveal_strlit("mod i16;\n");
            reveal_strlit("pub use i16::I16CO;\n");
            assert(lines()[8] =~= mod_line(widths()[j]));
            assert(lines()[22] =~= use_line(widths()[j]));
            lemma_concat_contains(lines(), 8);
            lemma_concat_contains(lines(), 22);
        } else if j == 8 {
            reveal_strlit("i32");
            reveal_strlit("mod i32;\n");
            reveal_strlit("pub use i32::I32CO;\n");
            assert(lines()[9] =~= mod_line(widths()[j]));
            assert(lines()[23] =~= use_line(widths()[j]));
            lemma_concat_contains(lines(), 9);
            lemma_concat_contains(lines(), 23);
        } else if j == 9 {
            reveal_strlit("i64");
            reveal_strlit("mod i64;\n");
            reveal_strlit("pub use i64::I64CO;\n");
            assert(lines()[10] =~= mod_line(widths()[j]));
            assert(lines()[24] =~= use_line(widths()[j]));
            lemma_concat_contains(lines(), 10);
            lemma_concat_contains(lines(), 24);
        } else if j == 10 {
            reveal_strlit("i128");
            reveal_strlit("mod i128;\n");
            reveal_strlit("pub use i128::I128CO;\n");
            assert(lines()[11] =~= mod_line(widths()[j]));
            assert(lines()[25] =~= use_line(widths()[j]));
            lemma_concat_contains(lines(), 11);
            lemma_concat_contains(lines(), 25);
        } else if j == 11 {
            reveal_strlit("isize");
            reveal_strlit("mod isize;\n");
            reveal_strlit("pub use isize::IsizeCO;\n");
            assert(lines()[12] =~= mod_line(widths()[j]));
            assert(lines()[26] =~= use_line(widths()[j]));
            lemma_concat_contains(lines(), 12);
            lemma_concat_contains(lines(), 26);
        }
    }
}

/// Line `i` of the crate root.
fn line(i: usize) -> (r: &'static str)
    requires
        i < lines().len(),
    ensures
        r@ == lines()[i as int],
{
    match i {
        0 => "mod res;\n",
        1 => "mod u8;\n",
        2 => "mod i8;\n",
        3 => "mod u16;\n",
        4 => "mod u32;\n",
        5 => "mod u64;\n",
        6 => "mod u128;\n",
        7 => "mod usize;\n",
        8 => "mod i16;\n",
        9 => "mod i32;\n",
        10 => "mod i64;\n",
        11 => "mod i128;\n",
        12 => "mod isize;\n",
        13 => "\n",
        14 => "pub use res::{OneTwo, ZeroOneTwo};\n",
        15 => "pub use u8::U8CO;\n",
        16 => "pub use i8::I8CO;\n",
        17 => "pub use u16::U16CO;\n",
        18 => "pub use u32::U32CO;\n",
        19 => "pub use u64::U64CO;\n",
        20 => "pub use u128::U128CO;\n",
        21 => "pub use usize::UsizeCO;\n",
        22 => "pub use i16::I16CO;\n",
        23 => "pub use i32::I32CO;\n",
        24 => "pub use i64::I64CO;\n",
        25 => "pub use i128::I128CO;\n",
        _ => "pub use isize::IsizeCO;\n",
    }
}

/// The crate root: `header` (its crate attributes) followed by `lib_rs_text()`.
pub fn lib_rs_source(header: &str) -> (s: String)
    ensures
        s@ == header@ + lib_rs_text(),
{
    let mut body = String::new();
    let mut i: usize = 0;
    while i < 27
        invariant
            i <= lines().len(),
            lines().len() == 27,
            body@ == concat_lines(lines().take(i as int)),
        decreases 27 - i,
    {
        let l = line(i);
        proof {
            assert(lines().take(i + 1).drop_last() =~= lines().take(i as int));
        }
        body.append(l);
        i = i + 1;
    }
    proof {
        assert(lines().take(27) =~= lines());
    }
    let mut out = String::from_str(header);
    out.append(body.as_str());
    out
}

/// The parent of a path given as text, as `std::path::Path::parent` computes it
/// (`None` for a root, a bare prefix or the empty path).
pub uninterp spec fn path_parent(path: Seq<char>) -> Option<Seq<char>>;

/// `std::path::Path::parent` on the path spelled by `path`. Claimed: the result is the
/// parent named by `path_parent` for this text, and nothing more; what the parent is
/// for a given text is left to std.
#[verifier::external_body]
fn parent_of(path: &str) -> (r: Option<String>)
    ensures
        match r {
            Some(p) => path_parent(path@) == Some(p@),
            None => path_parent(path@) is None,
        },
{
    std::path::Path::new(path).parent().and_then(|p| p.to_str()).map(|p| p.to_string())
}

/// The parent of the parent of `path`, where both exist.
pub open spec fn grandparent(path: Seq<char>) -> Option<Seq<char>> {
    match path_parent(path) {
        Some(p) => path_parent(p),
        None => None,
    }
}

/// The root of the workspace: two levels above the build tool's manifest directory, or
/// `None` where the path has no such ancestor.
pub fn workspace_root(manifest_dir: &str) -> (r: Option<String>)
    ensures
        match r {
            Some(root) => grandparent(manifest_dir@) == Some(root@),
            None => grandparent(manifest_dir@) is None,
        },
{
    match parent_of(manifest_dir) {
        Some(p) => parent_of(p.as_str()),
        None => None,
    }
}

} // verus!
