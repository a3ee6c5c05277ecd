use vstd::prelude::*;

verus! {

/// The byte that ends a line in the catalog manifest and the progress record,
/// both plain-text files with one exercise identifier per line.
pub open spec fn is_line_break(b: u8) -> bool {
    b == 10
}

/// Folding a file's bytes from the front: the lines already ended by a line
/// break, and the partial line gathered since the last break.
pub open spec fn spec_line_fold(data: Seq<u8>) -> (Seq<Seq<u8>>, Seq<u8>)
    decreases data.len(),
{
    if data.len() == 0 {
        (Seq::empty(), Seq::empty())
    } else {
        let (done, cur) = spec_line_fold(data.drop_last());
        if is_line_break(data.last()) {
            (done.push(cur), Seq::empty())
        } else {
            (done, cur.push(data.last()))
        }
    }
}

/// The lines of a plain-text file: the byte runs between line breaks. A final
/// line break is optional, and the empty file has no lines.
pub open spec fn spec_lines(data: Seq<u8>) -> Seq<Seq<u8>> {
    let (done, cur) = spec_line_fold(data);
    if cur.len() == 0 {
        done
    } else {
        done.push(cur)
    }
}

/// Extending a file by break-free bytes extends only the partial line after
/// the last break; the finished lines stay as they were.
proof fn lemma_fold_extends_partial_line(data: Seq<u8>, tail: Seq<u8>)
    requires
        forall|i: int| 0 <= i < tail.len() ==> !is_line_break(tail[i]),
    ensures
        spec_line_fold(data + tail).0 == spec_line_fold(data).0,
        spec_line_fold(data + tail).1 == spec_line_fold(data).1 + tail,
    decreases tail.len(),
{
    if tail.len() == 0 {
        assert(data + tail =~= data);
        assert(spec_line_fold(data).1 + tail =~= spec_line_fold(data).1);
    } else {
        let front = tail.drop_last();
        lemma_fold_extends_partial_line(data, front);
        assert((data + tail).drop_last() =~= data + front);
        assert(spec_line_fold(data).1 + tail =~= (spec_line_fold(data).1 + front).push(
            tail.last(),
        ));
    }
}

/// The durable append and the line split agree: appending one break-free
/// identifier, closed by a line break, to a record file whose lines are all
/// closed extends the file's parse by exactly that identifier — and leaves
/// the file's lines all closed again, so appends chain.
pub proof fn lemma_appended_line_is_parsed_back(data: Seq<u8>, id: Seq<u8>)
    requires
        forall|i: int| 0 <= i < id.len() ==> !is_line_break(id[i]),
        spec_line_fold(data).1.len() == 0,
    ensures
        spec_lines(data + id.push(10)) == spec_lines(data).push(id),
        spec_line_fold(data + id.push(10)).1.len() == 0,
{
    lemma_fold_extends_partial_line(data, id);
    assert((data + id.push(10)).drop_last() =~= data + id);
    assert((data + id.push(10)).last() == 10);
    assert(spec_line_fold(data).1 + id =~= id);
}

/// Splits a file's bytes into its lines: one entry per line, line breaks
/// dropped, a final break optional. The catalog manifest and the progress
/// record are both read through this split; their line count is what the
/// engine consumes.
pub fn split_lines(data: &[u8]) -> (lines: Vec<Vec<u8>>)
    ensures
        lines.deep_view() == spec_lines(data@),
{
    let mut done: Vec<Vec<u8>> = Vec::new();
    let mut cur: Vec<u8> = Vec::new();
    let mut i: usize = 0;
    while i < data.len()
        invariant
            i <= data.len(),
            done.deep_view() == spec_line_fold(data@.take(i as int)).0,
            cur@ == spec_line_fold(data@.take(i as int)).1,
        decreases data.len() - i,
    {
        let b = data[i];
        proof {
            assert(data@.take(i + 1 as int).drop_last() =~= data@.take(i as int));
            assert(data@.take(i + 1 as int).last() == data@[i as int]);
        }
        if b == 10 {
            let ghost folded = done.deep_view();
            let ghost line = cur@;
            done.push(cur);
            cur = Vec::new();
            proof {
                assert(done.deep_view() =~~= folded.push(line));
            }
        } else {
            cur.push(b);
        }
        i = i + 1;
    }
    proof {
        assert(data@.take(i as int) =~= data@);
    }
    if cur.len() > 0 {
        let ghost folded = done.deep_view();
        let ghost line = cur@;
        done.push(cur);
        proof {
            assert(done.deep_view() =~~= folded.push(line));
        }
    }
    done
}

} // verus!
