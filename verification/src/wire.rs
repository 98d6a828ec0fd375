//! Messages as lists of raw header fields, the form in which they cross a connection.

use std::time::SystemTime;
use vstd::prelude::*;

use crate::clock::read_time;
use crate::headers::HeaderMap;
use crate::message::Http3Request;
use crate::text::{bytes_equal, decimal_text};

verus! {

/// A header field as raw bytes: its name and its value.
pub type FieldBytes = (Seq<u8>, Seq<u8>);

/// A raw header field.
#[derive(Debug)]
pub struct Header {
    /// The name of the field.
    pub name: Vec<u8>,
    /// The value of the field.
    pub value: Vec<u8>,
}

impl View for Header {
    type V = FieldBytes;

    open spec fn view(&self) -> FieldBytes {
        (self.name@, self.value@)
    }
}

/// The raw fields of a list of headers.
pub open spec fn fields(headers: Seq<Header>) -> Seq<FieldBytes> {
    headers.map_values(|h: Header| h@)
}

/// A header field in UTF-8.
pub open spec fn encoded(field: crate::headers::FieldText) -> FieldBytes {
    (vstd::utf8::encode_utf8(field.0), vstd::utf8::encode_utf8(field.1))
}

/// A list of header fields in UTF-8.
pub open spec fn all_encoded(texts: Seq<crate::headers::FieldText>) -> Seq<FieldBytes> {
    texts.map_values(|f: crate::headers::FieldText| encoded(f))
}

impl Header {
    /// The raw form of a field that is given as text.
    pub fn from_text(name: &str, value: &str) -> (header: Header)
        ensures
            header@ == encoded((name@, value@)),
    {
        Header { name: name.as_bytes_vec(), value: value.as_bytes_vec() }
    }
}

/// The fields of a request as text: method, scheme, authority and path, and then the other
/// fields as they are listed.
pub open spec fn request_texts(request: Http3Request) -> Seq<crate::headers::FieldText> {
    seq![
        (":method"@, request.method@),
        (":scheme"@, request.scheme@),
        (":authority"@, request.authority@),
        (":path"@, request.path@),
    ] + request.headers.listing()
}

/// The raw header fields by which a request is sent.
pub fn request_headers(request: &Http3Request) -> (headers: Vec<Header>)
    ensures
        fields(headers@) == all_encoded(request_texts(*request)),
{
    let mut headers: Vec<Header> = Vec::new();
    headers.push(Header::from_text(":method", request.method.as_str()));
    headers.push(Header::from_text(":scheme", request.scheme.as_str()));
    headers.push(Header::from_text(":authority", request.authority.as_str()));
    headers.push(Header::from_text(":path", request.path.as_str()));
    let ghost all = all_encoded(request_texts(*request));
    let mut i: usize = 0;
    while i < request.headers.len()
        invariant
            i <= request.headers.listing().len(),
            all == all_encoded(request_texts(*request)),
            all.len() == request.headers.listing().len() + 4,
            fields(headers@) =~= all.take(i + 4),
        decreases request.headers.listing().len() - i,
    {
        let (name, value) = request.headers.entry(i);
        let ghost sent = headers@;
        headers.push(Header::from_text(name.as_str(), value.as_str()));
        proof {
            assert(request_texts(*request)[i + 4] == request.headers.listing()[i as int]);
            assert(all[i + 4] == encoded(request.headers.listing()[i as int]));
            assert(fields(headers@) =~= fields(sent).push(all[i + 4]));
            assert(all.take(i + 5) =~= all.take(i + 4).push(all[i + 4]));
        }
        i += 1;
    }
    assert(all.take(all.len() as int) =~= all);
    headers
}

/// The raw header fields by which a response is sent: its status, and that the body is JSON.
pub open spec fn response_texts(status: u64) -> Seq<crate::headers::FieldText> {
    seq![
        (":status"@, crate::text::decimal(status as nat)),
        ("content-type"@, "application/json"@),
    ]
}

/// The raw header fields by which a response is sent. The header fields that the response itself
/// holds are not among them.
pub fn response_headers(status: u64) -> (headers: Vec<Header>)
    ensures
        fields(headers@) == all_encoded(response_texts(status)),
{
    let mut headers: Vec<Header> = Vec::new();
    headers.push(Header::from_text(":status", decimal_text(status).as_str()));
    headers.push(Header::from_text("content-type", "application/json"));
    assert(fields(headers@) =~= all_encoded(response_texts(status)));
    headers
}

/// The text that `String::from_utf8_lossy` makes of bytes that are not UTF-8.
pub uninterp spec fn lossy_text(bytes: Seq<u8>) -> Seq<char>;

/// The text that received bytes stand for: the characters that they encode, or, where they are
/// not UTF-8, the text with replacement characters.
pub open spec fn received_text(bytes: Seq<u8>) -> Seq<char> {
    if vstd::utf8::valid_utf8(bytes) {
        vstd::utf8::decode_utf8(bytes)
    } else {
        lossy_text(bytes)
    }
}

/// `String::from_utf8_lossy` decodes UTF-8. Where the bytes are not UTF-8 it puts replacement
/// characters in place of what cannot be decoded, so that there is at least one; the text is then
/// a function of the bytes.
#[verifier::external_body]
fn utf8_lossy(bytes: &[u8]) -> (s: String)
    ensures
        vstd::utf8::valid_utf8(bytes@) ==> s@ == vstd::utf8::decode_utf8(bytes@),
        !vstd::utf8::valid_utf8(bytes@) ==> s@ == lossy_text(bytes@),
        !vstd::utf8::valid_utf8(bytes@) ==> s@.contains('\u{FFFD}'),
{
    String::from_utf8_lossy(bytes).into_owned()
}

/// The name is one of those that carry the method, the scheme, the authority and the path.
pub open spec fn is_request_pseudo(name: Seq<u8>) -> bool {
    ||| name == vstd::utf8::encode_utf8(":method"@)
    ||| name == vstd::utf8::encode_utf8(":scheme"@)
    ||| name == vstd::utf8::encode_utf8(":authority"@)
    ||| name == vstd::utf8::encode_utf8(":path"@)
}

/// The name, as text, is one of those that carry the method, the scheme, the authority and the
/// path.
pub open spec fn is_pseudo_text(name: Seq<char>) -> bool {
    name == ":method"@ || name == ":scheme"@ || name == ":authority"@ || name == ":path"@
}

/// None of the header fields has the name of one of the four parts that are held apart.
pub open spec fn has_no_pseudo_field(request: Http3Request) -> bool {
    forall|name: Seq<char>|
        is_pseudo_text(name) ==> !#[trigger] request.headers@.contains_key(name)
}

/// The value of the last field with a name, if there is such a field.
pub open spec fn last_value(list: Seq<FieldBytes>, name: Seq<u8>) -> Option<Seq<u8>>
    decreases list.len(),
{
    if list.len() == 0 {
        None
    } else if list.last().0 == name {
        Some(list.last().1)
    } else {
        last_value(list.drop_last(), name)
    }
}

/// The text of the last field with a name; no text where there is no such field.
pub open spec fn last_text(list: Seq<FieldBytes>, name: Seq<char>) -> Seq<char> {
    match last_value(list, vstd::utf8::encode_utf8(name)) {
        Some(value) => received_text(value),
        None => Seq::empty(),
    }
}

/// The fields that do not carry the method, the scheme, the authority or the path, as text.
pub open spec fn other_texts(list: Seq<FieldBytes>) -> Seq<crate::headers::FieldText> {
    list.filter(|f: FieldBytes| !is_request_pseudo(f.0)).map_values(
        |f: FieldBytes| (received_text(f.0), received_text(f.1)),
    )
}

/// The request is the one that a list of raw fields describes. Of several fields with one name
/// the last counts; what no field gives is empty; the body is not part of the list.
pub open spec fn describes(list: Seq<FieldBytes>, request: Http3Request) -> bool {
    &&& request.method@ == last_text(list, ":method"@)
    &&& request.scheme@ == last_text(list, ":scheme"@)
    &&& request.authority@ == last_text(list, ":authority"@)
    &&& request.path@ == last_text(list, ":path"@)
    &&& request.headers@ == crate::headers::collected(other_texts(list))
    &&& request.body is None
}

/// The four names are different from each other.
proof fn lemma_pseudo_names_differ()
    ensures
        vstd::utf8::encode_utf8(":method"@) != vstd::utf8::encode_utf8(":scheme"@),
        vstd::utf8::encode_utf8(":method"@) != vstd::utf8::encode_utf8(":authority"@),
        vstd::utf8::encode_utf8(":method"@) != vstd::utf8::encode_utf8(":path"@),
        vstd::utf8::encode_utf8(":scheme"@) != vstd::utf8::encode_utf8(":authority"@),
        vstd::utf8::encode_utf8(":scheme"@) != vstd::utf8::encode_utf8(":path"@),
        vstd::utf8::encode_utf8(":authority"@) != vstd::utf8::encode_utf8(":path"@),
{
    reveal_strlit(":method");
    reveal_strlit(":scheme");
    reveal_strlit(":authority");
    reveal_strlit(":path");
    vstd::utf8::encode_utf8_decode_utf8(":method"@);
    vstd::utf8::encode_utf8_decode_utf8(":scheme"@);
    vstd::utf8::encode_utf8_decode_utf8(":authority"@);
    vstd::utf8::encode_utf8_decode_utf8(":path"@);
    assert(":method"@[1] != ":scheme"@[1]);
    assert(":method"@.len() != ":authority"@.len());
    assert(":method"@.len() != ":path"@.len());
    assert(":scheme"@.len() != ":authority"@.len());
    assert(":scheme"@.len() != ":path"@.len());
    assert(":authority"@.len() != ":path"@.len());
}

/// A received name is the text of one of the four names only where it is that name.
proof fn lemma_other_name_is_no_pseudo(name: Seq<u8>, text: Seq<char>)
    requires
        !is_request_pseudo(name),
        vstd::utf8::valid_utf8(name) ==> text == vstd::utf8::decode_utf8(name),
        !vstd::utf8::valid_utf8(name) ==> text.contains('\u{FFFD}'),
    ensures
        !is_pseudo_text(text),
{
    if vstd::utf8::valid_utf8(name) {
        vstd::utf8::decode_utf8_encode_utf8(name);
    } else {
        reveal_strlit(":method");
        reveal_strlit(":scheme");
        reveal_strlit(":authority");
        reveal_strlit(":path");
    }
}

/// What one more field adds to the fields that do not carry a part of the request line.
pub proof fn lemma_other_texts_push(list: Seq<FieldBytes>, field: FieldBytes)
    ensures
        other_texts(list.push(field)) == if is_request_pseudo(field.0) {
            other_texts(list)
        } else {
            other_texts(list).push((received_text(field.0), received_text(field.1)))
        },
{
    reveal(Seq::filter);
    assert(list.push(field).drop_last() =~= list);
    let keep = |f: FieldBytes| !is_request_pseudo(f.0);
    assert(list.push(field).filter(keep) == if keep(field) {
        list.filter(keep).push(field)
    } else {
        list.filter(keep)
    });
    assert(other_texts(list.push(field)) =~= if is_request_pseudo(field.0) {
        other_texts(list)
    } else {
        other_texts(list).push((received_text(field.0), received_text(field.1)))
    });
}

/// The request that a list of raw header fields describes, received at a given time.
pub fn parse_headers_at(headers: &Vec<Header>, timestamp: SystemTime) -> (request: Http3Request)
    ensures
        describes(fields(headers@), request),
        has_no_pseudo_field(request),
        request.timestamp == timestamp,
{
    let mut request = Http3Request {
        method: String::new(),
        scheme: String::new(),
        authority: String::new(),
        path: String::new(),
        headers: HeaderMap::new(),
        body: None,
        timestamp,
    };
    let ghost all = fields(headers@);
    proof {
        reveal(Seq::filter);
        assert(other_texts(all.take(0)) =~= Seq::<crate::headers::FieldText>::empty());
    }
    let mut i: usize = 0;
    while i < headers.len()
        invariant
            i <= headers@.len(),
            all == fields(headers@),
            describes(all.take(i as int), request),
            has_no_pseudo_field(request),
            request.timestamp == timestamp,
        decreases headers@.len() - i,
    {
        let header = &headers[i];
        let ghost before = all.take(i as int);
        proof {
            lemma_pseudo_names_differ();
            lemma_other_texts_push(before, header@);
            assert(all.take(i + 1) =~= before.push(header@));
            assert(before.push(header@).drop_last() =~= before);
        }
        let name = header.name.as_slice();
        let value = utf8_lossy(header.value.as_slice());
        assert(value@ == received_text(header@.1));
        if bytes_equal(name, ":method".as_bytes()) {
            request.method = value;
        } else if bytes_equal(name, ":scheme".as_bytes()) {
            request.scheme = value;
        } else if bytes_equal(name, ":authority".as_bytes()) {
            request.authority = value;
        } else if bytes_equal(name, ":path".as_bytes()) {
            request.path = value;
        } else {
            let key = utf8_lossy(name);
            proof {
                assert(other_texts(all.take(i + 1)).drop_last() =~= other_texts(before));
                lemma_other_name_is_no_pseudo(name@, key@);
            }
            request.headers.insert(key, value);
        }
        i += 1;
    }
    assert(all.take(all.len() as int) =~= all);
    request
}

/// The request that a list of raw header fields describes, received now.
pub fn parse_request_headers(headers: Vec<Header>) -> (request: Http3Request)
    ensures
        describes(fields(headers@), request),
        has_no_pseudo_field(request),
        crate::clock::is_time_read(request.timestamp),
{
    parse_headers_at(&headers, read_time())
}

/// What was encoded as UTF-8 is received as it was.
proof fn lemma_received_encoded(s: Seq<char>)
    ensures
        received_text(vstd::utf8::encode_utf8(s)) == s,
{
    vstd::utf8::encode_utf8_valid_utf8(s);
    vstd::utf8::encode_utf8_decode_utf8(s);
}

/// Fields with other names do not change the last value of a name.
proof fn lemma_last_value_skips(
    first: Seq<crate::headers::FieldText>,
    rest: Seq<crate::headers::FieldText>,
    name: Seq<char>,
)
    requires
        forall|i: int| 0 <= i < rest.len() ==> (#[trigger] rest[i]).0 != name,
    ensures
        last_value(all_encoded(first + rest), vstd::utf8::encode_utf8(name)) == last_value(
            all_encoded(first),
            vstd::utf8::encode_utf8(name),
        ),
    decreases rest.len(),
{
    if rest.len() == 0 {
        assert(first + rest =~= first);
    } else {
        let shorter = rest.drop_last();
        lemma_last_value_skips(first, shorter, name);
        assert((first + rest).drop_last() =~= first + shorter);
        assert(all_encoded(first + rest).drop_last() =~= all_encoded(first + shorter));
        assert(rest[rest.len() - 1].0 != name);
        vstd::utf8::encode_utf8_decode_utf8(name);
        vstd::utf8::encode_utf8_decode_utf8(rest.last().0);
    }
}

/// Fields with other names are received as they were sent.
proof fn lemma_other_texts_kept(
    first: Seq<crate::headers::FieldText>,
    rest: Seq<crate::headers::FieldText>,
)
    requires
        forall|i: int| 0 <= i < rest.len() ==> !is_pseudo_text((#[trigger] rest[i]).0),
    ensures
        other_texts(all_encoded(first + rest)) == other_texts(all_encoded(first)) + rest,
    decreases rest.len(),
{
    if rest.len() == 0 {
        assert(first + rest =~= first);
        assert(other_texts(all_encoded(first)) + rest =~= other_texts(all_encoded(first)));
    } else {
        let shorter = rest.drop_last();
        let field = rest.last();
        lemma_other_texts_kept(first, shorter);
        assert(all_encoded(first + rest) =~= all_encoded(first + shorter).push(encoded(field)));
        lemma_other_texts_push(all_encoded(first + shorter), encoded(field));
        assert(!is_pseudo_text(rest[rest.len() - 1].0));
        vstd::utf8::encode_utf8_decode_utf8(field.0);
        vstd::utf8::encode_utf8_decode_utf8(":method"@);
        vstd::utf8::encode_utf8_decode_utf8(":scheme"@);
        vstd::utf8::encode_utf8_decode_utf8(":authority"@);
        vstd::utf8::encode_utf8_decode_utf8(":path"@);
        lemma_received_encoded(field.0);
        lemma_received_encoded(field.1);
        assert(rest =~= shorter.push(field));
        assert((other_texts(all_encoded(first)) + shorter).push(field) =~= other_texts(
            all_encoded(first),
        ) + rest);
    }
}

/// A request that is received is the request that was sent: method, scheme, authority, path and
/// header fields come out as they went in, whatever they hold. Only a header field with the name
/// of one of the four others would not: it would replace that one.
pub proof fn received_request_is_the_one_sent(sent: Http3Request, received: Http3Request)
    requires
        describes(all_encoded(request_texts(sent)), received),
        forall|name: Seq<char>| #[trigger]
            sent.headers@.contains_key(name) ==> !is_pseudo_text(name),
    ensures
        received.method@ == sent.method@,
        received.scheme@ == sent.scheme@,
        received.authority@ == sent.authority@,
        received.path@ == sent.path@,
        received.headers@ == sent.headers@,
{
    let first = seq![
        (":method"@, sent.method@),
        (":scheme"@, sent.scheme@),
        (":authority"@, sent.authority@),
        (":path"@, sent.path@),
    ];
    let rest = sent.headers.listing();
    assert forall|i: int| 0 <= i < rest.len() implies !is_pseudo_text((#[trigger] rest[i]).0) by {
        crate::headers::lemma_collected_keys(rest, rest[i].0);
        assert(sent.headers@.contains_key(rest[i].0));
    }
    lemma_last_value_skips(first, rest, ":method"@);
    lemma_last_value_skips(first, rest, ":scheme"@);
    lemma_last_value_skips(first, rest, ":authority"@);
    lemma_last_value_skips(first, rest, ":path"@);
    lemma_other_texts_kept(first, rest);
    lemma_pseudo_names_differ();
    let all = all_encoded(first);
    reveal_with_fuel(last_value, 5);
    assert(all.drop_last().last() == encoded(first[2]));
    assert(all.drop_last().drop_last().last() == encoded(first[1]));
    assert(all.drop_last().drop_last().drop_last().last() == encoded(first[0]));
    lemma_received_encoded(sent.method@);
    lemma_received_encoded(sent.scheme@);
    lemma_received_encoded(sent.authority@);
    lemma_received_encoded(sent.path@);
    let none = Seq::<FieldBytes>::empty();
    assert(all =~= none.push(encoded(first[0])).push(encoded(first[1])).push(
        encoded(first[2]),
    ).push(encoded(first[3])));
    lemma_other_texts_push(none, encoded(first[0]));
    lemma_other_texts_push(none.push(encoded(first[0])), encoded(first[1]));
    lemma_other_texts_push(
        none.push(encoded(first[0])).push(encoded(first[1])),
        encoded(first[2]),
    );
    lemma_other_texts_push(
        none.push(encoded(first[0])).push(encoded(first[1])).push(encoded(first[2])),
        encoded(first[3]),
    );
    reveal(Seq::filter);
    assert(other_texts(none) =~= Seq::<crate::headers::FieldText>::empty());
    assert(other_texts(all) + rest =~= rest);
}

} // verus!
