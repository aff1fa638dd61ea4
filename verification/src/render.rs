//! Rendering search hits and the fixed console messages, exactly as
//! they are written to the terminal.

use vstd::prelude::*;
use crate::records::ClothesDisplay;
use crate::records::ClothesDisplayV;
use crate::records::views_of_display;

verus! {

/// The block of text one hit is shown as, with the newline that
/// printing it appends.
pub open spec fn spec_render_one(d: ClothesDisplayV) -> Seq<char> {
    "\nresult\n article: "@ + d.article + ",\n price: "@ + d.cost + ",\n size: "@ + d.size
        + ",\n pattern: "@ + d.pattern + "\n"@ + "\n"@
}

/// The blocks of all hits, in order.
pub open spec fn spec_render_list(hits: Seq<ClothesDisplayV>) -> Seq<char>
    decreases hits.len(),
{
    if hits.len() == 0 {
        Seq::empty()
    } else {
        spec_render_list(hits.drop_last()) + spec_render_one(hits.last())
    }
}

/// What a query's outcome prints: the hits one block after another,
/// or the no-results message when there is none.
pub open spec fn spec_render_hits(hits: Seq<ClothesDisplayV>) -> Seq<char> {
    if hits.len() == 0 {
        "no results...\n"@
    } else {
        spec_render_list(hits)
    }
}

/// Render one hit as its display block.
pub fn render_one(d: &ClothesDisplay) -> (r: String)
    ensures
        r@ == spec_render_one(d@),
{
    let mut s = String::new();
    s.append("\nresult\n article: ");
    s.append(d.article.as_str());
    s.append(",\n price: ");
    s.append(d.cost.as_str());
    s.append(",\n size: ");
    s.append(d.size.as_str());
    s.append(",\n pattern: ");
    s.append(d.pattern.as_str());
    s.append("\n");
    s.append("\n");
    s
}

/// Render a query's hits as the text the terminal shows.
pub fn render_hits(hits: &Vec<ClothesDisplay>) -> (r: String)
    ensures
        r@ == spec_render_hits(views_of_display(hits@)),
{
    if hits.len() == 0 {
        assert(views_of_display(hits@) =~= Seq::<ClothesDisplayV>::empty());
        let mut s = String::new();
        s.append("no results...\n");
        s
    } else {
        let mut s = String::new();
        let mut i: usize = 0;
        while i < hits.len()
            invariant
                0 <= i <= hits@.len(),
                s@ == spec_render_list(views_of_display(hits@.subrange(0, i as int))),
            decreases hits@.len() - i,
        {
            let block = render_one(&hits[i]);
            s.append(block.as_str());
            proof {
                let pre = views_of_display(hits@.subrange(0, i as int));
                let post = views_of_display(hits@.subrange(0, i + 1 as int));
                assert(post.drop_last() =~= pre);
                assert(post.last() == hits@[i as int]@);
            }
            i = i + 1;
        }
        proof {
            assert(hits@.subrange(0, hits@.len() as int) =~= hits@);
        }
        s
    }
}

proof fn lemma_render_list_head(hits: Seq<ClothesDisplayV>)
    requires
        hits.len() > 0,
    ensures
        spec_render_list(hits).len() > 0,
        spec_render_list(hits)[0] == '\n',
    decreases hits.len(),
{
    reveal_strlit("\nresult\n article: ");
    if hits.len() == 1 {
        assert(spec_render_list(hits.drop_last()).len() == 0);
    } else {
        lemma_render_list_head(hits.drop_last());
    }
}

/// Law: the rendered outcome is the no-results message exactly when
/// the query returned no hit at all.
pub proof fn lemma_no_results_iff(hits: Seq<ClothesDisplayV>)
    ensures
        spec_render_hits(hits) == "no results...\n"@ <==> hits.len() == 0,
{
    reveal_strlit("no results...\n");
    if hits.len() > 0 {
        lemma_render_list_head(hits);
        assert(spec_render_hits(hits)[0] == '\n');
        assert("no results...\n"@[0] == 'n');
    }
}

/// The prompt shown before each line of input is read.
pub fn prompt_text() -> (r: String)
    ensures
        r@ == "Enter a search query or type \"q\" or \"quit\" to quit:\n"@,
{
    let mut s = String::new();
    s.append("Enter a search query or type \"q\" or \"quit\" to quit:\n");
    s
}

/// The line printed when the query loop is left.
pub fn exit_message() -> (r: String)
    ensures
        r@ == "exiting...\n"@,
{
    let mut s = String::new();
    s.append("exiting...\n");
    s
}

} // verus!
