//! A model of the output tree that sequential file writes leave behind, and
//! the laws of the build that rest on it: which file survives when two
//! documents share a slug, and that a finished build is deterministic in
//! where it writes.

use vstd::prelude::*;

use crate::front_matter::slug_of;
use crate::front_matter::title_of;
use crate::render::OutputFile;
use crate::render::SiteBuild;
use crate::render::build_complete;
use crate::render::page_path_of;

verus! {

/// The directory tree a sequence of file writes leaves behind: every write
/// lands, and a later write to a path replaces an earlier one.
pub open spec fn apply_writes(writes: Seq<OutputFile>) -> Map<Seq<char>, Seq<char>>
    decreases writes.len(),
{
    if writes.len() == 0 {
        Map::empty()
    } else {
        apply_writes(writes.drop_last()).insert(writes.last().path@, writes.last().contents@)
    }
}

/// A write that no later write shadows is what the tree finally holds at its
/// path.
pub proof fn lemma_last_write_wins(writes: Seq<OutputFile>, j: int)
    requires
        0 <= j < writes.len(),
        forall|i: int| j < i < writes.len() ==> (#[trigger] writes[i]).path@ != writes[j].path@,
    ensures
        apply_writes(writes).contains_key(writes[j].path@),
        apply_writes(writes)[writes[j].path@] == writes[j].contents@,
    decreases writes.len(),
{
    if j == writes.len() - 1 {
    } else {
        lemma_last_write_wins(writes.drop_last(), j);
    }
}

/// Slugs derive distinct page paths: the path determines the slug.
pub proof fn lemma_page_path_injective(s1: Seq<char>, s2: Seq<char>)
    requires
        page_path_of(s1) == page_path_of(s2),
    ensures
        s1 == s2,
{
    reveal_strlit("blog/");
    reveal_strlit("/index.html");
    assert("blog/"@.len() == 5);
    assert("/index.html"@.len() == 11);
    assert(page_path_of(s1).len() == 16 + s1.len());
    assert(page_path_of(s2).len() == 16 + s2.len());
    assert(s1.len() == s2.len());
    assert forall|i: int| 0 <= i < s1.len() implies s1[i] == s2[i] by {
        assert(page_path_of(s1)[5 + i] == s1[i]);
        assert(page_path_of(s2)[5 + i] == s2[i]);
    }
    assert(s1 =~= s2);
}

/// A page path is never the home page's path nor the section page's path:
/// both are shorter than any page path.
pub proof fn lemma_page_path_not_reserved(s: Seq<char>)
    ensures
        page_path_of(s) != "index.html"@,
        page_path_of(s) != "blog/index.html"@,
{
    reveal_strlit("blog/");
    reveal_strlit("/index.html");
    reveal_strlit("index.html");
    reveal_strlit("blog/index.html");
    assert(page_path_of(s).len() == 16 + s.len());
    assert("index.html"@.len() == 10);
    assert("blog/index.html"@.len() == 15);
}

/// When two documents of a finished build share a slug, both their writes go
/// to one path, and the file that survives there holds the contents written
/// for whichever document came later.
pub proof fn lemma_slug_collision(build: SiteBuild, documents: Seq<String>, i: int, j: int)
    requires
        build_complete(build, documents),
        0 <= i < j < documents.len(),
        slug_of(documents[i]@) == slug_of(documents[j]@),
        forall|k: int|
            j < k < documents.len() ==> slug_of((#[trigger] documents[k])@) != slug_of(
                documents[j]@,
            ),
    ensures
        build.outputs@[i].path@ == build.outputs@[j].path@,
        apply_writes(build.outputs@).contains_key(build.outputs@[j].path@),
        apply_writes(build.outputs@)[build.outputs@[j].path@] == build.outputs@[j].contents@,
{
    let n = documents.len() as int;
    let outs = build.outputs@;
    assert forall|k: int| j < k < outs.len() implies (#[trigger] outs[k]).path@ != outs[j].path@ by {
        if k < n {
            if outs[k].path@ == outs[j].path@ {
                lemma_page_path_injective(
                    slug_of(documents[k]@).unwrap(),
                    slug_of(documents[j]@).unwrap(),
                );
            }
        } else {
            lemma_page_path_not_reserved(slug_of(documents[j]@).unwrap());
        }
    }
    lemma_last_write_wins(outs, j);
}

/// A finished build is a function of its documents wherever the pipeline
/// itself decides: two finished builds over the same documents write to the
/// same paths in the same order, and collect the same section entries. (The
/// bytes inside each file pass through the template engine, of which the
/// pipeline fixes nothing.)
pub proof fn lemma_build_deterministic(b1: SiteBuild, b2: SiteBuild, documents: Seq<String>)
    requires
        build_complete(b1, documents),
        build_complete(b2, documents),
    ensures
        b1.outputs@.len() == b2.outputs@.len(),
        forall|i: int|
            0 <= i < b1.outputs@.len() ==> (#[trigger] b1.outputs@[i]).path@ == b2.outputs@[i].path@,
        b1.section.pages@.len() == b2.section.pages@.len(),
        forall|i: int|
            0 <= i < b1.section.pages@.len() ==> (#[trigger] b1.section.pages@[i]).title@
                == b2.section.pages@[i].title@ && b1.section.pages@[i].permalink@
                == b2.section.pages@[i].permalink@,
{
    assert forall|i: int|
        0 <= i < b1.section.pages@.len() implies (#[trigger] b1.section.pages@[i]).title@
        == b2.section.pages@[i].title@ && b1.section.pages@[i].permalink@
        == b2.section.pages@[i].permalink@ by {
        assert(b1.section.pages@[i].title@ == title_of(documents[i]@).unwrap());
        assert(b2.section.pages@[i].title@ == title_of(documents[i]@).unwrap());
    }
}

} // verus!
