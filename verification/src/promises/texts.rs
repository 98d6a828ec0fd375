//! Promises on texts, bodies, dates, errors and header fields.

use bytes::Bytes;
use vstd::prelude::*;

use crate::body::{share_body, text_body};
use crate::clock::{current_date, date_text, read_time, second_of};
use crate::error::TquicError;
use crate::headers::HeaderMap;
use crate::text::{bytes_equal, decimal_text, join, text_equal};

verus! {

/// A number below ten is written as its digit; any other is written as the number without its
/// last digit, followed by that digit.
pub proof fn a_number_is_written_digit_by_digit(n: u64, text: String, shorter: String)
    requires
        call_ensures(decimal_text, (n,), text),
        call_ensures(decimal_text, ((n / 10) as u64,), shorter),
    ensures
        n < 10 ==> text@.len() == 1,
        n >= 10 ==> text@.len() == shorter@.len() + 1 && text@.drop_last() == shorter@,
        text@.last() as int == '0' as int + n % 10,
{
    if n >= 10 {
        assert(text@.drop_last() =~= shorter@);
    }
}

/// Joined texts stand one behind the other, with nothing before, between or after them.
pub proof fn joined_texts_follow_each_other(a: &str, b: &str, joined: String)
    requires
        call_ensures(join, (a, b), joined),
    ensures
        joined@.len() == a@.len() + b@.len(),
        joined@.take(a@.len() as int) == a@,
        joined@.skip(a@.len() as int) == b@,
{
    assert(joined@.take(a@.len() as int) =~= a@);
    assert(joined@.skip(a@.len() as int) =~= b@);
}

/// Texts and byte strings are found the same exactly where they are.
pub proof fn equal_is_equal(
    a: &str,
    b: &str,
    same_text: bool,
    x: &[u8],
    y: &[u8],
    same_bytes: bool,
)
    requires
        call_ensures(text_equal, (a, b), same_text),
        call_ensures(bytes_equal, (x, y), same_bytes),
    ensures
        same_text <==> a@ == b@,
        same_bytes <==> x@ == y@,
{
}

/// A text body holds the text in UTF-8, and a shared body holds what the body holds.
pub proof fn bodies_hold_what_they_were_given(
    data: &str,
    body: Bytes,
    given: Option<Bytes>,
    shared: Option<Bytes>,
)
    requires
        call_ensures(text_body, (data,), body),
        call_ensures(share_body, (&given,), shared),
    ensures
        crate::body::contents(body) == vstd::utf8::encode_utf8(data@),
        given is None <==> shared is None,
        given is Some ==> crate::body::contents(shared->0) == crate::body::contents(given->0),
{
}

/// A second of the years 0 to 9999 has its own date; an earlier one has the date of the first of
/// these seconds, and a later one that of the last.
pub proof fn a_second_has_its_date(seconds: i64, date: String)
    requires
        call_ensures(date_text, (seconds,), date),
    ensures
        -62_167_219_200 <= seconds <= 253_402_300_799 ==> date@ == crate::clock::rfc2822(seconds),
        seconds < -62_167_219_200 ==> date@ == crate::clock::rfc2822(
            -62_167_219_200 as i64,
        ),
        seconds > 253_402_300_799 ==> date@ == crate::clock::rfc2822(253_402_300_799),
{
}

/// The text of an error begins with what kind of error it is and ends with what the error holds.
pub proof fn an_error_says_what_it_holds(
    held: String,
    tquic: String,
    config: String,
    certificate: String,
    connection: String,
    http3: String,
)
    requires
        call_ensures(TquicError::to_string, (&TquicError::Tquic(held),), tquic),
        call_ensures(TquicError::to_string, (&TquicError::Config(held),), config),
        call_ensures(TquicError::to_string, (&TquicError::Certificate(held),), certificate),
        call_ensures(TquicError::to_string, (&TquicError::Connection(held),), connection),
        call_ensures(TquicError::to_string, (&TquicError::Http3(held),), http3),
    ensures
        tquic@ == "TQUIC错误: "@ + held@,
        config@ == "配置错误: "@ + held@,
        certificate@ == "证书错误: "@ + held@,
        connection@ == "连接错误: "@ + held@,
        http3@ == "HTTP/3错误: "@ + held@,
{
}

/// The text of an error of input and output begins with its kind and ends with a text of the
/// error that it holds.
pub proof fn an_io_error_says_what_it_holds(held: std::io::Error, text: String)
    requires
        call_ensures(TquicError::to_string, (&TquicError::Io(held),), text),
    ensures
        exists|s: String| #[trigger]
            vstd::string::to_string_from_display_ensures::<std::io::Error>(&held, s) && text@
                == "IO错误: "@ + s@,
{
}

/// There is nothing to read in a new map.
pub proof fn a_new_map_is_empty(
    map: HeaderMap,
    n: usize,
    asked: &str,
    got: Option<&String>,
    found: bool,
)
    requires
        call_ensures(HeaderMap::new, (), map),
        call_ensures(HeaderMap::len, (&map,), n),
        call_ensures(HeaderMap::get, (&map, asked), got),
        call_ensures(HeaderMap::contains_key, (&map, asked), found),
    ensures
        n == 0,
        got is None,
        !found,
{
}

/// A name that was set reads back as it was set; every other name reads as it did before. There
/// is one entry more exactly where the name was new.
pub proof fn what_was_set_is_read(
    map: &mut HeaderMap,
    name: String,
    value: String,
    asked: &str,
    before: Option<&String>,
    after: Option<&String>,
    named: &str,
    named_before: Option<&String>,
    n: usize,
    m: usize,
)
    requires
        call_ensures(HeaderMap::insert, (map, name, value), ()),
        call_ensures(HeaderMap::get, (&*old(map), asked), before),
        call_ensures(HeaderMap::get, (&*final(map), asked), after),
        named@ == name@,
        call_ensures(HeaderMap::get, (&*old(map), named), named_before),
        call_ensures(HeaderMap::len, (&*old(map),), n),
        call_ensures(HeaderMap::len, (&*final(map),), m),
    ensures
        asked@ == name@ ==> after is Some && after->0@ == value@,
        asked@ != name@ ==> (after is Some <==> before is Some),
        asked@ != name@ && before is Some ==> after->0@ == before->0@,
        m == n + if named_before is Some {
            0int
        } else {
            1int
        },
{
    crate::headers::lemma_collected_size(old(map).listing());
}

/// A name is found exactly where it has a value.
pub proof fn a_name_is_found_where_it_has_a_value(
    map: HeaderMap,
    asked: &str,
    got: Option<&String>,
    found: bool,
)
    requires
        call_ensures(HeaderMap::get, (&map, asked), got),
        call_ensures(HeaderMap::contains_key, (&map, asked), found),
    ensures
        found <==> got is Some,
{
}

/// Each entry is the name and the value that is read for it, and no two entries have the same
/// name.
pub proof fn entries_are_what_is_read(
    map: HeaderMap,
    n: usize,
    i: usize,
    j: usize,
    field: (&String, &String),
    other: (&String, &String),
    asked: &str,
    got: Option<&String>,
)
    requires
        call_ensures(HeaderMap::len, (&map,), n),
        i < n,
        j < n,
        call_ensures(HeaderMap::entry, (&map, i), field),
        call_ensures(HeaderMap::entry, (&map, j), other),
        asked@ == field.0@,
        call_ensures(HeaderMap::get, (&map, asked), got),
    ensures
        got is Some && got->0@ == field.1@,
        i != j ==> field.0@ != other.0@,
{
    crate::headers::lemma_collected_at(map.listing(), i as int);
    if i < j {
        assert(map.listing()[i as int].0 != map.listing()[j as int].0);
    } else if j < i {
        assert(map.listing()[j as int].0 != map.listing()[i as int].0);
    }
}

/// A copy of a map reads as the map does, entry by entry and name by name.
pub proof fn a_copy_reads_the_same(
    map: HeaderMap,
    copy: HeaderMap,
    n: usize,
    m: usize,
    i: usize,
    field: (&String, &String),
    copied: (&String, &String),
    asked: &str,
    got: Option<&String>,
    got_from_copy: Option<&String>,
)
    requires
        call_ensures(HeaderMap::clone, (&map,), copy),
        call_ensures(HeaderMap::len, (&map,), n),
        call_ensures(HeaderMap::len, (&copy,), m),
        i < n,
        call_ensures(HeaderMap::entry, (&map, i), field),
        call_ensures(HeaderMap::entry, (&copy, i), copied),
        call_ensures(HeaderMap::get, (&map, asked), got),
        call_ensures(HeaderMap::get, (&copy, asked), got_from_copy),
    ensures
        n == m,
        field.0@ == copied.0@ && field.1@ == copied.1@,
        got is Some <==> got_from_copy is Some,
        got is Some ==> got->0@ == got_from_copy->0@,
{
}

/// The current date is the date of the second that it comes with, which the clock has shown; a
/// reading of the clock counts as its second, and as the start of 1970 where it gave none.
pub proof fn the_current_date_is_that_of_its_second(
    now: (i64, String),
    date: String,
    read: i64,
    counted: i64,
    uncounted: i64,
    time: std::time::SystemTime,
)
    requires
        call_ensures(current_date, (), now),
        call_ensures(date_text, (now.0,), date),
        call_ensures(second_of, (Some(read),), counted),
        call_ensures(second_of, (None,), uncounted),
        call_ensures(read_time, (), time),
    ensures
        now.1@ == date@,
        crate::clock::is_clock_reading(now.0),
        counted == read,
        uncounted == 0,
        crate::clock::is_time_read(time),
{
}

} // verus!
