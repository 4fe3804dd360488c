//! What the program knows about its own build: its name, its version and
//! the platform it was built for, in the forms shown to people and sent
//! to the update server.

use vstd::prelude::*;
use vstd::string::StringExecFns;

verus! {

/// The facts recorded when the program was built.
pub struct BuildInfo {
    /// The package version, such as `0.1.0`.
    pub package_version: String,
    /// The short hash of the source commit, when it was known.
    pub commit: Option<String>,
    /// The version of the compiler.
    pub rust_version: String,
    /// The operating system, such as `linux`.
    pub os_name: String,
    /// The target architecture, such as `x86_64`.
    pub arch: String,
    /// The target vendor, such as `unknown`.
    pub vendor: String,
    /// The target ABI, such as `gnu`, when the target names one.
    pub abi: Option<String>,
}

/// The program's full version: the package version, then `-` and the
/// commit when the commit is known.
pub open spec fn version_text(b: BuildInfo) -> Seq<char> {
    match b.commit {
        Some(c) => b.package_version@ + "-"@ + c@,
        None => b.package_version@,
    }
}

/// The build facts as (name, value) pairs, in this order: the program's
/// name with its version, `rust`, `git-commit` (when known), `os`, `arch`,
/// `vendor` and `abi` (when the target names one).
pub open spec fn info_entries(b: BuildInfo) -> Seq<(Seq<char>, Seq<char>)> {
    seq![("semantic-editor"@, version_text(b)), ("rust"@, b.rust_version@)] + (match b.commit {
        Some(c) => seq![("git-commit"@, c@)],
        None => Seq::empty(),
    }) + seq![("os"@, b.os_name@), ("arch"@, b.arch@), ("vendor"@, b.vendor@)] + (match b.abi {
        Some(a) => seq![("abi"@, a@)],
        None => Seq::empty(),
    })
}

/// The text values of a list of string pairs.
pub open spec fn entry_views(v: Seq<(String, String)>) -> Seq<(Seq<char>, Seq<char>)> {
    v.map_values(|p: (String, String)| (p.0@, p.1@))
}

/// Each pair written as its name, `mid`, and its value.
pub open spec fn pair_texts(pairs: Seq<(Seq<char>, Seq<char>)>, mid: Seq<char>) -> Seq<Seq<char>> {
    pairs.map_values(|p: (Seq<char>, Seq<char>)| p.0 + mid + p.1)
}

/// The items written one after another with `sep` between neighbours.
pub open spec fn joined(items: Seq<Seq<char>>, sep: Seq<char>) -> Seq<char>
    decreases items.len(),
{
    if items.len() == 0 {
        Seq::empty()
    } else if items.len() == 1 {
        items[0]
    } else {
        joined(items.drop_last(), sep) + sep + items.last()
    }
}

/// The user agent sent to the update server: each build fact as
/// `name/value`, separated by spaces.
pub open spec fn user_agent_text(b: BuildInfo) -> Seq<char> {
    joined(pair_texts(info_entries(b), "/"@), " "@)
}

/// The first lines of the program's description in its help text.
pub open spec fn about_heading() -> Seq<char> {
    "The Semantic Editor \u{2014} Next generation editing\n\nBUILD INFORMATION:\n    "@
}

/// The program's description in its help text: the heading, then each
/// build fact as `name: value` on an indented line of its own.
pub open spec fn about_text_of(b: BuildInfo) -> Seq<char> {
    about_heading() + joined(pair_texts(info_entries(b), ": "@), "\n    "@)
}

/// The listing of build facts, entry by entry: the program's name with
/// its version first, `rust` second, then `git-commit` exactly when the
/// commit is known, then `os`, `arch` and `vendor`, and `abi` last exactly
/// when the target names one; whether the commit is known does not change
/// whether the ABI is listed, nor the other way round.
pub proof fn lemma_info_entries(b: BuildInfo)
    ensures
        info_entries(b).len() == 5 + (if b.commit is Some { 1int } else { 0 }) + (if b.abi is Some {
            1int
        } else {
            0
        }),
        info_entries(b)[0] == ("semantic-editor"@, version_text(b)),
        info_entries(b)[1] == ("rust"@, b.rust_version@),
        b.commit matches Some(c) ==> info_entries(b)[2] == ("git-commit"@, c@),
        info_entries(b)[if b.commit is Some { 3int } else { 2 }] == ("os"@, b.os_name@),
        info_entries(b)[if b.commit is Some { 4int } else { 3 }] == ("arch"@, b.arch@),
        info_entries(b)[if b.commit is Some { 5int } else { 4 }] == ("vendor"@, b.vendor@),
        b.abi matches Some(a) ==> info_entries(b).last() == ("abi"@, a@),
        b.abi is None ==> info_entries(b).last() == ("vendor"@, b.vendor@),
        version_text(b) == (match b.commit {
            Some(c) => b.package_version@ + "-"@ + c@,
            None => b.package_version@,
        }),
{
}

/// Where item `k` starts in the joined text: after every earlier item and
/// one separator after each of them.
pub open spec fn item_offset(items: Seq<Seq<char>>, sep: Seq<char>, k: int) -> int
    decreases k,
{
    if k <= 0 {
        0
    } else {
        item_offset(items, sep, k - 1) + items[k - 1].len() + sep.len()
    }
}

proof fn lemma_item_offset_prefix(items: Seq<Seq<char>>, front: Seq<Seq<char>>, sep: Seq<char>, k: int)
    requires
        0 <= k <= front.len() <= items.len(),
        forall|j: int| 0 <= j < front.len() ==> front[j] == items[j],
    ensures
        item_offset(front, sep, k) == item_offset(items, sep, k),
    decreases k,
{
    if k > 0 {
        lemma_item_offset_prefix(items, front, sep, k - 1);
    }
}

proof fn lemma_item_offset_grows(items: Seq<Seq<char>>, sep: Seq<char>, k: int)
    ensures
        0 <= item_offset(items, sep, k),
        k >= 0 ==> item_offset(items, sep, k) <= item_offset(items, sep, k + 1),
    decreases k,
{
    if k > 0 {
        lemma_item_offset_grows(items, sep, k - 1);
    }
}

proof fn lemma_joined_len(items: Seq<Seq<char>>, sep: Seq<char>)
    requires
        items.len() >= 1,
    ensures
        joined(items, sep).len() == item_offset(items, sep, items.len() - 1) + items.last().len(),
    decreases items.len(),
{
    if items.len() > 1 {
        let front = items.drop_last();
        lemma_joined_len(front, sep);
        lemma_item_offset_prefix(items, front, sep, front.len() - 1);
    }
}

proof fn lemma_joined_item(items: Seq<Seq<char>>, sep: Seq<char>, k: int)
    requires
        0 <= k < items.len(),
    ensures
        joined(items, sep).len() >= item_offset(items, sep, k) + items[k].len(),
        joined(items, sep).subrange(item_offset(items, sep, k), item_offset(items, sep, k) + items[k].len())
            == items[k],
    decreases items.len(),
{
    let j = joined(items, sep);
    lemma_joined_len(items, sep);
    if items.len() == 1 {
        assert(j.subrange(0, items[0].len() as int) =~= items[0]);
    } else {
        let front = items.drop_last();
        let jf = joined(front, sep);
        lemma_joined_len(front, sep);
        lemma_item_offset_prefix(items, front, sep, front.len() - 1);
        assert(j == jf + sep + items.last());
        lemma_item_offset_grows(items, sep, k);
        if k < items.len() - 1 {
            lemma_joined_item(front, sep, k);
            lemma_item_offset_prefix(items, front, sep, k);
            assert(j.subrange(item_offset(items, sep, k), item_offset(items, sep, k) + items[k].len())
                =~= jf.subrange(item_offset(front, sep, k), item_offset(front, sep, k) + front[k].len()));
        } else {
            assert(j.subrange(item_offset(items, sep, k), item_offset(items, sep, k) + items[k].len())
                =~= items.last());
        }
    }
}

proof fn lemma_joined_sep(items: Seq<Seq<char>>, sep: Seq<char>, k: int)
    requires
        0 <= k < items.len() - 1,
    ensures
        joined(items, sep).len() >= item_offset(items, sep, k + 1),
        joined(items, sep).subrange(item_offset(items, sep, k) + items[k].len(), item_offset(items, sep, k + 1))
            == sep,
    decreases items.len(),
{
    let j = joined(items, sep);
    let front = items.drop_last();
    let jf = joined(front, sep);
    lemma_joined_len(items, sep);
    lemma_joined_len(front, sep);
    lemma_item_offset_prefix(items, front, sep, front.len() - 1);
    assert(j == jf + sep + items.last());
    lemma_item_offset_grows(items, sep, k);
    lemma_item_offset_grows(items, sep, k + 1);
    if k < items.len() - 2 {
        lemma_joined_sep(front, sep, k);
        lemma_item_offset_prefix(items, front, sep, k + 1);
        lemma_item_offset_prefix(items, front, sep, k);
        assert(j.subrange(item_offset(items, sep, k) + items[k].len(), item_offset(items, sep, k + 1))
            =~= jf.subrange(item_offset(front, sep, k) + front[k].len(), item_offset(front, sep, k + 1)));
    } else {
        assert(j.subrange(jf.len() as int, (jf.len() + sep.len()) as int) =~= sep);
    }
}

/// The layout of a joined text: the items in order, each at its offset,
/// with exactly one separator between neighbours and nothing else.
pub proof fn lemma_joined_layout(items: Seq<Seq<char>>, sep: Seq<char>)
    requires
        items.len() >= 1,
    ensures
        joined(items, sep).len() == item_offset(items, sep, items.len() - 1) + items.last().len(),
        forall|k: int|
            0 <= k < items.len() ==> joined(items, sep).subrange(
                item_offset(items, sep, k),
                item_offset(items, sep, k) + items[k].len(),
            ) == #[trigger] items[k],
        forall|k: int|
            0 <= k < items.len() - 1 ==> joined(items, sep).subrange(
                item_offset(items, sep, k) + items[k].len(),
                #[trigger] item_offset(items, sep, k + 1),
            ) == sep,
{
    lemma_joined_len(items, sep);
    assert forall|k: int| 0 <= k < items.len() implies joined(items, sep).subrange(
        item_offset(items, sep, k),
        item_offset(items, sep, k) + items[k].len(),
    ) == #[trigger] items[k] by {
        lemma_joined_item(items, sep, k);
    }
    assert forall|k: int| 0 <= k < items.len() - 1 implies joined(items, sep).subrange(
        item_offset(items, sep, k) + items[k].len(),
        #[trigger] item_offset(items, sep, k + 1),
    ) == sep by {
        lemma_joined_sep(items, sep, k);
    }
}

/// A joined list begins with its first item.
proof fn lemma_joined_starts_with_first(items: Seq<Seq<char>>, sep: Seq<char>)
    requires
        items.len() >= 1,
    ensures
        joined(items, sep).len() >= items[0].len(),
        joined(items, sep).subrange(0, items[0].len() as int) == items[0],
    decreases items.len(),
{
    if items.len() >= 2 {
        let front = items.drop_last();
        lemma_joined_starts_with_first(front, sep);
        assert(front[0] == items[0]);
        let j = joined(items, sep);
        assert(j == joined(front, sep) + sep + items.last());
        assert(j.subrange(0, items[0].len() as int) =~= joined(front, sep).subrange(
            0,
            items[0].len() as int,
        ));
    } else {
        assert(joined(items, sep).subrange(0, items[0].len() as int) =~= items[0]);
    }
}

/// The user agent begins by naming the program and its full version:
/// `semantic-editor/` followed by what `version` returns.
pub proof fn lemma_user_agent_names_version(b: BuildInfo)
    ensures
        user_agent_text(b).len() >= ("semantic-editor/"@ + version_text(b)).len(),
        user_agent_text(b).subrange(0, ("semantic-editor/"@ + version_text(b)).len() as int)
            == "semantic-editor/"@ + version_text(b),
{
    let items = pair_texts(info_entries(b), "/"@);
    assert(items[0] == "semantic-editor"@ + "/"@ + version_text(b));
    assert("semantic-editor"@ + "/"@ + version_text(b) =~= "semantic-editor/"@ + version_text(b))
        by {
        reveal_strlit("semantic-editor");
        reveal_strlit("/");
        reveal_strlit("semantic-editor/");
    }
    lemma_joined_starts_with_first(items, " "@);
}

/// The program's name.
pub fn app_name() -> (name: &'static str)
    ensures
        name@ == "semantic-editor"@,
{
    "semantic-editor"
}

/// The program's full version.
pub fn version(b: &BuildInfo) -> (v: String)
    ensures
        v@ == version_text(*b),
{
    match &b.commit {
        Some(commit) => {
            let mut v = b.package_version.clone();
            v.append("-");
            v.append(commit.as_str());
            v
        },
        None => b.package_version.clone(),
    }
}

/// The build facts as (name, value) pairs.
pub fn info(b: &BuildInfo) -> (result: Vec<(String, String)>)
    ensures
        entry_views(result@) == info_entries(*b),
        result@.len() == 5 + (if b.commit is Some { 1int } else { 0 }) + (if b.abi is Some {
            1int
        } else {
            0
        }),
        b.abi matches Some(a) ==> result@.last().0@ == "abi"@ && result@.last().1@ == a@,
{
    let mut result: Vec<(String, String)> = Vec::new();

    result.push((String::from_str(app_name()), version(b)));
    result.push((String::from_str("rust"), b.rust_version.clone()));
    if let Some(commit) = &b.commit {
        result.push((String::from_str("git-commit"), commit.clone()));
    }
    result.push((String::from_str("os"), b.os_name.clone()));
    result.push((String::from_str("arch"), b.arch.clone()));
    result.push((String::from_str("vendor"), b.vendor.clone()));

    if let Some(abi) = &b.abi {
        result.push((String::from_str("abi"), abi.clone()));
    }

    assert(entry_views(result@) =~= info_entries(*b));
    proof {
        lemma_info_entries(*b);
        assert(entry_views(result@)[result@.len() - 1] == info_entries(*b).last());
    }
    result
}

/// Writes each pair as its name, `mid` and its value, with `sep` between
/// neighbouring pairs.
pub fn join_entries(entries: &Vec<(String, String)>, mid: &str, sep: &str) -> (s: String)
    ensures
        s@ == joined(pair_texts(entry_views(entries@), mid@), sep@),
{
    let ghost items = pair_texts(entry_views(entries@), mid@);
    let mut s = String::new();
    let mut i: usize = 0;
    while i < entries.len()
        invariant
            i <= entries@.len(),
            items == pair_texts(entry_views(entries@), mid@),
            s@ == joined(items.take(i as int), sep@),
        decreases entries@.len() - i,
    {
        if i != 0 {
            s.append(sep);
        }
        s.append(entries[i].0.as_str());
        s.append(mid);
        s.append(entries[i].1.as_str());
        assert(items.take(i + 1).drop_last() =~= items.take(i as int));
        assert(items[i as int] == entries@[i as int].0@ + mid@ + entries@[i as int].1@);
        if i == 0 {
            assert(s@ =~= joined(items.take(1), sep@));
        } else {
            assert(s@ =~= joined(items.take(i + 1), sep@));
        }
        i = i + 1;
    }
    assert(items.take(i as int) =~= items);
    s
}

/// The user agent sent to the update server.
pub fn user_agent(b: &BuildInfo) -> (agent: String)
    ensures
        agent@ == user_agent_text(*b),
{
    let entries = info(b);
    join_entries(&entries, "/", " ")
}

/// The program's description in its help text.
pub fn about_text(b: &BuildInfo) -> (about: String)
    ensures
        about@ == about_text_of(*b),
{
    let entries = info(b);
    let listing = join_entries(&entries, ": ", "\n    ");
    let mut about = String::from_str("The Semantic Editor \u{2014} Next generation editing\n\nBUILD INFORMATION:\n    ");
    about.append(listing.as_str());
    about
}

} // verus!
