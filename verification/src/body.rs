use vstd::prelude::*;

verus! {

/// The largest announced body length for which room is reserved up front.
pub const MAX_PREALLOCATED_BODY: u64 = 1_000_000;

/// How much room to reserve for a response body whose length the server
/// announced (or did not): the announced length when it is below
/// `MAX_PREALLOCATED_BODY`, else nothing.
pub fn initial_body_capacity(content_length: Option<u64>) -> (capacity: usize)
    ensures
        capacity == match content_length {
            Some(len) => if len < MAX_PREALLOCATED_BODY {
                len as usize
            } else {
                0usize
            },
            None => 0usize,
        },
{
    match content_length {
        Some(len) => {
            if len < MAX_PREALLOCATED_BODY {
                len as usize
            } else {
                0
            }
        },
        None => 0,
    }
}

/// The bytes `Array`, with which a dump of a PHP array begins.
pub open spec fn array_marker() -> Seq<u8> {
    seq![65u8, 114u8, 114u8, 97u8, 121u8]
}

/// The byte `{`, with which a JSON object begins.
pub const OPEN_BRACE: u8 = 123;

/// The number of bytes of `s` before its first `{` (all of them if none).
pub open spec fn bytes_before_brace(s: Seq<u8>) -> nat
    decreases s.len(),
{
    if s.len() == 0 {
        0
    } else if s[0] == OPEN_BRACE {
        0
    } else {
        1 + bytes_before_brace(s.drop_first())
    }
}

/// Whether a response body starts with a PHP array dump that the server
/// sometimes prints before its JSON answer.
pub open spec fn has_debug_dump(body: Seq<u8>) -> bool {
    body.len() > 5 && body.take(5) == array_marker()
}

/// The JSON part of a response body: without the leading PHP array dump,
/// if there is one, that is without everything before the first `{`.
pub open spec fn without_debug_dump(body: Seq<u8>) -> Seq<u8> {
    if has_debug_dump(body) {
        body.skip(bytes_before_brace(body) as int)
    } else {
        body
    }
}

proof fn lemma_bytes_before_brace(s: Seq<u8>)
    ensures
        bytes_before_brace(s) <= s.len(),
        forall|i: int| 0 <= i < bytes_before_brace(s) ==> #[trigger] s[i] != OPEN_BRACE,
        bytes_before_brace(s) < s.len() ==> s[bytes_before_brace(s) as int] == OPEN_BRACE,
    decreases s.len(),
{
    if s.len() > 0 && s[0] != OPEN_BRACE {
        lemma_bytes_before_brace(s.drop_first());
        assert forall|i: int| 0 <= i < bytes_before_brace(s) implies #[trigger] s[i]
            != OPEN_BRACE by {
            if i > 0 {
                assert(s[i] == s.drop_first()[i - 1]);
            }
        }
    }
}

/// Strips the PHP array dump that the server sometimes prints before its
/// JSON answer: a body longer than five bytes that starts with `Array`
/// loses everything before its first `{`; any other body is left as it is.
pub fn strip_debug_dump(body: &[u8]) -> (json: &[u8])
    ensures
        json@ == without_debug_dump(body@),
        body@.len() > 5 && body@[0] == 65 && body@[1] == 114 && body@[2] == 114 && body@[3] == 97
            && body@[4] == 121 ==> {
            let removed = body@.len() - json@.len();
            &&& json@ == body@.skip(removed)
            &&& forall|i: int| 0 <= i < removed ==> body@[i] != 123u8
            &&& json@.len() > 0 ==> json@[0] == 123u8
        },
        !(body@.len() > 5 && body@[0] == 65 && body@[1] == 114 && body@[2] == 114 && body@[3]
            == 97 && body@[4] == 121) ==> json@ == body@,
{
    proof {
        lemma_strip_debug_dump(body@);
    }
    if body.len() > 5 && body[0] == 65 && body[1] == 114 && body[2] == 114 && body[3] == 97
        && body[4] == 121 {
        assert(body@.take(5) =~= array_marker());
        assert(body@.skip(0) =~= body@);
        let mut pos: usize = 0;
        while pos < body.len() && body[pos] != OPEN_BRACE
            invariant
                pos <= body.len(),
                bytes_before_brace(body@) == pos + bytes_before_brace(body@.skip(pos as int)),
            decreases body.len() - pos,
        {
            assert(body@.skip(pos as int).drop_first() =~= body@.skip(pos + 1));
            pos += 1;
        }
        let (_, json) = body.split_at(pos);
        json
    } else {
        proof {
            if body@.len() > 5 && body@.take(5) == array_marker() {
                assert(body@.take(5)[0] == 65u8);
                assert(body@.take(5)[1] == 114u8);
                assert(body@.take(5)[2] == 114u8);
                assert(body@.take(5)[3] == 97u8);
                assert(body@.take(5)[4] == 121u8);
            }
        }
        body
    }
}

/// Stripping the dump only ever removes a prefix without a `{`, and when it
/// removes anything, what is left is empty or starts with `{`. Every body
/// longer than five bytes that starts with the bytes of `Array`, whatever its
/// length, loses exactly what stands before its first `{`; every other body
/// is left as it is.
pub proof fn lemma_strip_debug_dump(body: Seq<u8>)
    ensures
        ({
            let json = without_debug_dump(body);
            let removed = body.len() - json.len();
            &&& json.len() <= body.len()
            &&& json == body.skip(removed)
            &&& forall|i: int| 0 <= i < removed ==> body[i] != OPEN_BRACE
            &&& has_debug_dump(body) && json.len() > 0 ==> json[0] == OPEN_BRACE
            &&& !has_debug_dump(body) ==> json == body
        }),
        ({
            let json = without_debug_dump(body);
            let removed = body.len() - json.len();
            let starts_with_array = body.len() > 5 && body[0] == 65 && body[1] == 114 && body[2]
                == 114 && body[3] == 97 && body[4] == 121;
            &&& starts_with_array ==> (json.len() > 0 ==> json[0] == 123u8)
            &&& starts_with_array ==> forall|i: int| 0 <= i < removed ==> body[i] != 123u8
            &&& starts_with_array ==> json == body.skip(removed)
            &&& !starts_with_array ==> json == body
        }),
{
    let starts_with_array = body.len() > 5 && body[0] == 65 && body[1] == 114 && body[2] == 114
        && body[3] == 97 && body[4] == 121;
    if starts_with_array {
        assert(body.take(5) =~= array_marker());
    } else if body.len() > 5 && body.take(5) == array_marker() {
        assert(body.take(5)[0] == 65u8);
        assert(body.take(5)[1] == 114u8);
        assert(body.take(5)[2] == 114u8);
        assert(body.take(5)[3] == 97u8);
        assert(body.take(5)[4] == 121u8);
    }
    lemma_bytes_before_brace(body);
    assert(body.skip(0) =~= body);
}

} // verus!
