//! Layout of a stored vector: the object's frame around the three number texts.

use vstd::prelude::*;

verus! {

/// An opening brace.
pub const OPEN: u8 = 0x7b;

/// A closing brace.
pub const CLOSE: u8 = 0x7d;

/// A line feed.
pub const NEWLINE: u8 = 0x0a;

/// A space.
pub const SPACE: u8 = 0x20;

/// A double quote.
pub const QUOTE: u8 = 0x22;

/// A colon.
pub const COLON: u8 = 0x3a;

/// A comma.
pub const COMMA: u8 = 0x2c;

/// The letter `x`.
pub const KEY_X: u8 = 0x78;

/// The letter `y`.
pub const KEY_Y: u8 = 0x79;

/// The letter `z`.
pub const KEY_Z: u8 = 0x7a;

/// One member of the object on a line of its own: two spaces of indentation,
/// the one-letter key in quotes, a colon, a space, and the value's text.
pub open spec fn member(key: u8, text: Seq<u8>) -> Seq<u8> {
    seq![SPACE, SPACE, QUOTE, key, QUOTE, COLON, SPACE] + text
}

/// The whole document for the component texts `x`, `y` and `z`: an opening
/// brace, the three members in that order, each on its own line and parted by
/// commas, and a closing brace on the last line, with no line break after it.
pub open spec fn document(x: Seq<u8>, y: Seq<u8>, z: Seq<u8>) -> Seq<u8> {
    seq![OPEN, NEWLINE] + member(KEY_X, x) + seq![COMMA, NEWLINE] + member(KEY_Y, y)
        + seq![COMMA, NEWLINE] + member(KEY_Z, z) + seq![NEWLINE, CLOSE]
}

/// A text that holds no comma. Every JSON number is one, and so is `null`,
/// which the JSON encoder writes for a component that is not finite.
pub open spec fn comma_free(text: Seq<u8>) -> bool {
    forall|i: int| 0 <= i < text.len() ==> text[i] != COMMA
}

fn push_member(out: &mut Vec<u8>, key: u8, text: &[u8])
    ensures
        final(out)@ == old(out)@ + member(key, text@),
{
    out.push(SPACE);
    out.push(SPACE);
    out.push(QUOTE);
    out.push(key);
    out.push(QUOTE);
    out.push(COLON);
    out.push(SPACE);
    out.extend_from_slice(text);
    assert(out@ =~= old(out)@ + member(key, text@));
}

/// Lays out the document that stores a vector whose components have the JSON
/// texts `x`, `y` and `z`. The texts are taken as they are: whatever the
/// encoder wrote for a component, a number or `null`, stands in the document.
pub fn vector_document(x: &[u8], y: &[u8], z: &[u8]) -> (doc: Vec<u8>)
    ensures
        doc@ == document(x@, y@, z@),
{
    let mut doc: Vec<u8> = Vec::new();
    doc.push(OPEN);
    doc.push(NEWLINE);
    push_member(&mut doc, KEY_X, x);
    doc.push(COMMA);
    doc.push(NEWLINE);
    push_member(&mut doc, KEY_Y, y);
    doc.push(COMMA);
    doc.push(NEWLINE);
    push_member(&mut doc, KEY_Z, z);
    doc.push(NEWLINE);
    doc.push(CLOSE);
    assert(doc@ =~= document(x@, y@, z@));
    doc
}

/// A document tells its three texts apart: where two triples of texts give
/// the same document, and in both the texts of `x` and `y` hold no comma, the
/// triples are the same. So the texts found in a stored vector are the texts
/// that were written.
pub proof fn lemma_document_determines_texts(
    x: Seq<u8>,
    y: Seq<u8>,
    z: Seq<u8>,
    x2: Seq<u8>,
    y2: Seq<u8>,
    z2: Seq<u8>,
)
    requires
        comma_free(x),
        comma_free(y),
        comma_free(x2),
        comma_free(y2),
        document(x, y, z) == document(x2, y2, z2),
    ensures
        x == x2,
        y == y2,
        z == z2,
{
    let d = document(x, y, z);
    let d2 = document(x2, y2, z2);
    // The text of `x` begins behind the brace's line and the lead of its own.
    let ax: int = 9;
    assert(d.len() == ax + x.len() + 2 + 7 + y.len() + 2 + 7 + z.len() + 2);
    assert(d2.len() == ax + x2.len() + 2 + 7 + y2.len() + 2 + 7 + z2.len() + 2);
    assert forall|i: int| 0 <= i < x.len() implies d[ax + i] == x[i] by {}
    assert forall|i: int| 0 <= i < x2.len() implies d2[ax + i] == x2[i] by {}
    assert(d[ax + x.len()] == COMMA);
    assert(d2[ax + x2.len()] == COMMA);
    if x.len() < x2.len() {
        assert(d2[ax + x.len()] == x2[x.len() as int]);
    }
    if x2.len() < x.len() {
        assert(d[ax + x2.len()] == x[x2.len() as int]);
    }
    assert(x.len() == x2.len());
    assert(x =~= x2) by {
        assert forall|i: int| 0 <= i < x.len() implies x[i] == x2[i] by {
            assert(d[ax + i] == d2[ax + i]);
        }
    }
    let ay: int = ax + x.len() + 2 + 7;
    assert forall|i: int| 0 <= i < y.len() implies d[ay + i] == y[i] by {}
    assert forall|i: int| 0 <= i < y2.len() implies d2[ay + i] == y2[i] by {}
    assert(d[ay + y.len()] == COMMA);
    assert(d2[ay + y2.len()] == COMMA);
    if y.len() < y2.len() {
        assert(d2[ay + y.len()] == y2[y.len() as int]);
    }
    if y2.len() < y.len() {
        assert(d[ay + y2.len()] == y[y2.len() as int]);
    }
    assert(y.len() == y2.len());
    assert(y =~= y2) by {
        assert forall|i: int| 0 <= i < y.len() implies y[i] == y2[i] by {
            assert(d[ay + i] == d2[ay + i]);
        }
    }
    let az: int = ay + y.len() + 2 + 7;
    assert forall|i: int| 0 <= i < z.len() implies d[az + i] == z[i] by {}
    assert forall|i: int| 0 <= i < z2.len() implies d2[az + i] == z2[i] by {}
    assert(z.len() == z2.len());
    assert(z =~= z2) by {
        assert forall|i: int| 0 <= i < z.len() implies z[i] == z2[i] by {
            assert(d[az + i] == d2[az + i]);
        }
    }
}

} // verus!
