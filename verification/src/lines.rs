use vstd::prelude::*;

verus! {

/// Drops one carriage return from the end of a line, if present.
pub open spec fn strip_cr(s: Seq<u8>) -> Seq<u8> {
    if s.len() > 0 && s.last() == 13u8 {
        s.drop_last()
    } else {
        s
    }
}

/// The lines of the stream `b` when the bytes of `cur` have already been read
/// as the start of the current line: lines are split at line feeds, a
/// carriage return just before a line feed is dropped, and a final
/// unterminated segment forms a last line unless it is empty.
pub open spec fn spec_lines_from(b: Seq<u8>, cur: Seq<u8>) -> Seq<Seq<u8>>
    decreases b.len(),
{
    if b.len() == 0 {
        if cur.len() == 0 {
            Seq::empty()
        } else {
            seq![cur]
        }
    } else if b[0] == 10u8 {
        seq![strip_cr(cur)] + spec_lines_from(b.skip(1), Seq::empty())
    } else {
        spec_lines_from(b.skip(1), cur.push(b[0]))
    }
}

/// The lines of a captured output stream.
pub open spec fn spec_lines(b: Seq<u8>) -> Seq<Seq<u8>> {
    spec_lines_from(b, Seq::empty())
}

/// Splits a captured output stream into lines, exactly as `spec_lines`
/// describes.
pub fn split_lines(b: &Vec<u8>) -> (r: Vec<Vec<u8>>)
    ensures
        r.deep_view() == spec_lines(b@),
{
    let mut out: Vec<Vec<u8>> = Vec::new();
    let mut cur: Vec<u8> = Vec::new();
    let mut i: usize = 0;
    proof {
        assert(b@.skip(0) =~= b@);
        assert(out.deep_view() =~= Seq::<Seq<u8>>::empty());
        assert(out.deep_view() + spec_lines_from(b@.skip(0), cur@) =~= spec_lines(b@));
    }
    while i < b.len()
        invariant
            i <= b.len(),
            out.deep_view() + spec_lines_from(b@.skip(i as int), cur@) =~= spec_lines(b@),
        decreases b.len() - i,
    {
        let ghost rem = b@.skip(i as int);
        let ghost cur0 = cur@;
        let ghost out0 = out.deep_view();
        proof {
            assert(rem[0] == b@[i as int]);
            assert(rem.skip(1) =~= b@.skip(i as int + 1));
        }
        if b[i] == 10 {
            let mut line = cur;
            cur = Vec::new();
            if line.len() > 0 && line[line.len() - 1] == 13 {
                let _ = line.pop();
            }
            proof {
                assert(line@ =~= strip_cr(cur0));
                assert(line.deep_view() =~= strip_cr(cur0));
            }
            out.push(line);
            proof {
                assert(out.deep_view() =~= out0.push(strip_cr(cur0)));
                assert(spec_lines_from(rem, cur0) =~= seq![strip_cr(cur0)] + spec_lines_from(
                    rem.skip(1),
                    Seq::empty(),
                ));
                assert(out.deep_view() + spec_lines_from(b@.skip(i as int + 1), cur@)
                    =~= spec_lines(b@));
            }
        } else {
            cur.push(b[i]);
            proof {
                assert(cur@ =~= cur0.push(rem[0]));
                assert(spec_lines_from(rem, cur0) == spec_lines_from(rem.skip(1), cur@));
                assert(out.deep_view() + spec_lines_from(b@.skip(i as int + 1), cur@)
                    =~= spec_lines(b@));
            }
        }
        i = i + 1;
    }
    proof {
        assert(b@.skip(b.len() as int) =~= Seq::<u8>::empty());
    }
    if cur.len() > 0 {
        let ghost out0 = out.deep_view();
        let ghost cur0 = cur@;
        proof {
            assert(cur.deep_view() =~= cur0);
        }
        out.push(cur);
        proof {
            assert(out.deep_view() =~= out0.push(cur0));
            assert(out.deep_view() =~= spec_lines(b@));
        }
    } else {
        proof {
            assert(cur@ =~= Seq::<u8>::empty());
            assert(out.deep_view() =~= spec_lines(b@));
        }
    }
    out
}

} // verus!
