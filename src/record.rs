use vstd::prelude::*;
use crate::error::{outcome, Error, ErrorView};

verus! {

/// A record as the API sends it, every scalar as text, that converts into
/// the library's typed record.
pub trait RawRecord: Sized {
    type Event;

    /// The typed record, or the error naming the first field that fails.
    spec fn spec_convert(&self) -> Result<Self::Event, ErrorView>;

    fn convert(&self) -> (r: Result<Self::Event, Error>)
        ensures
            outcome(r) == self.spec_convert(),
    ;
}

/// Converts records in order; the first failure decides the result.
pub open spec fn convert_all<R: RawRecord>(s: Seq<R>) -> Result<Seq<R::Event>, ErrorView>
    decreases s.len(),
{
    if s.len() == 0 {
        Ok(Seq::empty())
    } else {
        match convert_all(s.drop_last()) {
            Err(e) => Err(e),
            Ok(done) => match s.last().spec_convert() {
                Err(e) => Err(e),
                Ok(x) => Ok(done.push(x)),
            },
        }
    }
}

/// Once a prefix fails, every longer run fails with the same error.
pub proof fn lemma_convert_all_fails_on<R: RawRecord>(s: Seq<R>, i: int)
    requires
        0 <= i <= s.len(),
        convert_all(s.subrange(0, i)) is Err,
    ensures
        convert_all(s) == convert_all(s.subrange(0, i)),
    decreases s.len() - i,
{
    if i < s.len() {
        assert(s.subrange(0, i + 1).drop_last() =~= s.subrange(0, i));
        lemma_convert_all_fails_on(s, i + 1);
    } else {
        assert(s.subrange(0, i) =~= s);
    }
}

/// Converts every record of `data` in order, stopping at the first failure.
pub fn convert_records<R: RawRecord>(data: &Vec<R>) -> (r: Result<Vec<R::Event>, Error>)
    ensures
        match r {
            Ok(v) => convert_all(data@) == Ok::<Seq<R::Event>, ErrorView>(v@),
            Err(e) => convert_all(data@) == Err::<Seq<R::Event>, ErrorView>(e@),
        },
{
    let mut out: Vec<R::Event> = Vec::new();
    let mut i: usize = 0;
    while i < data.len()
        invariant
            0 <= i <= data@.len(),
            convert_all(data@.subrange(0, i as int)) == Ok::<Seq<R::Event>, ErrorView>(out@),
        decreases data@.len() - i,
    {
        let c = data[i].convert();
        proof {
            assert(data@.subrange(0, i + 1).drop_last() =~= data@.subrange(0, i as int));
        }
        match c {
            Ok(x) => {
                out.push(x);
            },
            Err(e) => {
                proof {
                    lemma_convert_all_fails_on(data@, i + 1);
                }
                return Err(e);
            },
        }
        i = i + 1;
    }
    proof {
        assert(data@.subrange(0, i as int) =~= data@);
    }
    Ok(out)
}

} // verus!
