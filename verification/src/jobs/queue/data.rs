//! The body of an upload: a PDF document.
use vstd::prelude::*;

verus! {

/// An uploaded PDF document.
#[derive(Debug, Clone)]
pub struct PdfBody {
    pub bytes: Vec<u8>,
}

/// The marker every PDF file starts its header with.
pub open spec fn pdf_marker() -> Seq<u8> {
    seq![37u8, 80u8, 68u8, 70u8, 45u8, 49u8]
}

/// `bytes` holds `pattern` at position `at`.
pub open spec fn occurs_at(bytes: Seq<u8>, pattern: Seq<u8>, at: int) -> bool {
    0 <= at && at + pattern.len() <= bytes.len() && bytes.subrange(at, at + pattern.len())
        == pattern
}

/// An upload is taken for a PDF when its first bytes hold `%PDF-1`
/// somewhere (read as text, with invalid sequences replaced).
pub fn looks_like_pdf(peek: &[u8]) -> (res: bool)
    ensures
        res == exists|at: int| #[trigger] occurs_at(peek@, pdf_marker(), at),
{
    let n = peek.len();
    if n < 6 {
        assert forall|at: int| !#[trigger] occurs_at(peek@, pdf_marker(), at) by {}
        return false;
    }
    let mut i: usize = 0;
    while i <= n - 6
        invariant
            n == peek@.len(),
            n >= 6,
            i <= n - 5,
            forall|at: int| 0 <= at < i ==> !#[trigger] occurs_at(peek@, pdf_marker(), at),
        decreases n - i,
    {
        if peek[i] == 37 && peek[i + 1] == 80 && peek[i + 2] == 68 && peek[i + 3] == 70 && peek[i
            + 4] == 45 && peek[i + 5] == 49 {
            assert(peek@.subrange(i as int, i + 6) =~= pdf_marker());
            assert(occurs_at(peek@, pdf_marker(), i as int));
            return true;
        }
        assert(!occurs_at(peek@, pdf_marker(), i as int)) by {
            if occurs_at(peek@, pdf_marker(), i as int) {
                let w = peek@.subrange(i as int, i + 6);
                assert(w[0] == peek[i as int] && w[1] == peek[i + 1] && w[2] == peek[i + 2]);
                assert(w[3] == peek[i + 3] && w[4] == peek[i + 4] && w[5] == peek[i + 5]);
            }
        }
        i = i + 1;
    }
    assert forall|at: int| !#[trigger] occurs_at(peek@, pdf_marker(), at) by {
        if at >= i {
            assert(at + 6 > n);
        }
    }
    false
}

} // verus!
