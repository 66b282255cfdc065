//! Sequence views shared by the three crawl drivers, and the text layout of a
//! cache file: one URL per line.
use vstd::prelude::*;
use vstd::string::StringExecFns;

verus! {

/// The character sequences of a list of strings.
pub open spec fn views_of(ss: Seq<String>) -> Seq<Seq<char>> {
    Seq::new(ss.len(), |i: int| ss[i]@)
}

/// The concatenation of a crawl's page batches, in fetch order.
pub open spec fn concat_all(batches: Seq<Seq<Seq<char>>>) -> Seq<Seq<char>>
    decreases batches.len(),
{
    if batches.len() == 0 {
        Seq::empty()
    } else {
        concat_all(batches.drop_last()) + batches.last()
    }
}

/// Consuming one more batch extends the concatenation by exactly that batch.
pub proof fn lemma_concat_all_push(batches: Seq<Seq<Seq<char>>>, b: Seq<Seq<char>>)
    ensures
        concat_all(batches.push(b)) == concat_all(batches) + b,
{
    assert(batches.push(b).drop_last() =~= batches);
    assert(batches.push(b).last() == b);
}

/// The text of a cache file: every line followed by a newline.
pub open spec fn lines_text(lines: Seq<Seq<char>>) -> Seq<char>
    decreases lines.len(),
{
    if lines.len() == 0 {
        Seq::empty()
    } else {
        lines_text(lines.drop_last()) + lines.last() + seq!['\n']
    }
}

/// Renders a URL list as cache-file text, one URL per line.
pub fn render_lines(lines: &Vec<String>) -> (r: String)
    ensures
        r@ == lines_text(views_of(lines@)),
{
    let mut out = String::new();
    let n = lines.len();
    proof {
        assert(views_of(lines@.take(0)).len() == 0);
    }
    for i in 0..n
        invariant
            n == lines@.len(),
            out@ == lines_text(views_of(lines@.take(i as int))),
    {
        out.append(lines[i].as_str());
        out.append("\n");
        proof {
            reveal_strlit("\n");
            assert("\n"@ =~= seq!['\n']);
            let prefix = views_of(lines@.take(i as int));
            let cur = views_of(lines@.take(i + 1));
            assert(cur.drop_last() =~= prefix);
            assert(cur.last() == lines@[i as int]@);
        }
    }
    proof {
        assert(lines@.take(n as int) =~= lines@);
    }
    out
}

} // verus!

