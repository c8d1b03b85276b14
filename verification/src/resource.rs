//! What is known of a resource before it is downloaded.

use vstd::prelude::*;
use vstd::string::*;

use crate::filename::law_safe_name_is_plain;
use crate::location::{kind, resource_kind, Location, LocationView};
use crate::naming::{
    ensure_extension, extended, filename_from_response, law_response_name_is_safe, response_name,
};
use crate::number::{
    decimal, is_digit, law_number_of_decimal, lemma_decimal, number, read_number,
};
use crate::outside::{law_plain_name_is_portable, name_extension};
use crate::text::{
    after_last, law_after_last_of_joined, same, since_last, str_view, string_view,
};

verus! {

/// The head of an HTTP response. Header values are raw bytes.
#[derive(Clone, Debug)]
pub struct ResponseHead {
    pub status_code: u16,
    pub content_type: Option<Vec<u8>>,
    pub content_disposition: Option<Vec<u8>>,
    pub content_range: Option<Vec<u8>>,
    /// The length of the body, as far as it is known.
    pub content_length: Option<u64>,
    /// The URL that answered.
    pub location: Location,
}

/// A [`ResponseHead`] in its bytes and characters.
#[verifier::ext_equal]
pub struct HeadView {
    pub status_code: u16,
    pub content_type: Option<Seq<u8>>,
    pub content_disposition: Option<Seq<u8>>,
    pub content_range: Option<Seq<u8>>,
    pub content_length: Option<u64>,
    pub location: LocationView,
}

/// The bytes of a header value that may be missing.
pub open spec fn bytes_view(value: Option<Vec<u8>>) -> Option<Seq<u8>> {
    match value {
        Some(value) => Some(value@),
        None => None,
    }
}

impl View for ResponseHead {
    type V = HeadView;

    open spec fn view(&self) -> HeadView {
        HeadView {
            status_code: self.status_code,
            content_type: bytes_view(self.content_type),
            content_disposition: bytes_view(self.content_disposition),
            content_range: bytes_view(self.content_range),
            content_length: self.content_length,
            location: self.location@,
        }
    }
}

/// What is known of a resource.
#[derive(Clone, Debug)]
pub struct ResourceInfo {
    pub url: String,
    pub kind: String,
    pub content_type: Option<String>,
    pub filename: Option<String>,
    pub size: Option<u64>,
    pub final_url: String,
    pub status_code: u16,
}

/// A [`ResourceInfo`] in its characters.
#[verifier::ext_equal]
pub struct ResourceView {
    pub url: Seq<char>,
    pub kind: Seq<char>,
    pub content_type: Option<Seq<char>>,
    pub filename: Option<Seq<char>>,
    pub size: Option<u64>,
    pub final_url: Seq<char>,
    pub status_code: u16,
}

impl View for ResourceInfo {
    type V = ResourceView;

    open spec fn view(&self) -> ResourceView {
        ResourceView {
            url: self.url@,
            kind: self.kind@,
            content_type: string_view(self.content_type),
            filename: string_view(self.filename),
            size: self.size,
            final_url: self.final_url@,
            status_code: self.status_code,
        }
    }
}

/// Whether a byte of a header value can be read as text: visible ASCII, space
/// or tab.
pub open spec fn is_header_byte(b: u8) -> bool {
    32 <= b < 127 || b == 9
}

/// The text of a header value, where all its bytes can be read.
pub open spec fn header_text(value: Option<Seq<u8>>) -> Option<Seq<char>> {
    match value {
        Some(bytes) if forall|i: int| 0 <= i < bytes.len() ==> is_header_byte(#[trigger] bytes[i])
            => Some(Seq::new(bytes.len(), |i: int| bytes[i] as char)),
        _ => None,
    }
}

/// The text of a header value, where there is one and all its bytes can be
/// read.
pub fn read_header(value: &Option<Vec<u8>>) -> (r: Option<String>)
    ensures
        string_view(r) == header_text(bytes_view(*value)),
{
    match value {
        None => None,
        Some(bytes) => {
            let mut text = String::new();
            for i in 0..bytes.len()
                invariant
                    *value == Some(*bytes),
                    text@ == Seq::new(i as nat, |j: int| bytes@[j] as char),
                    forall|j: int| 0 <= j < i ==> is_header_byte(#[trigger] bytes@[j]),
            {
                let b: u8 = bytes[i];
                if !((32 <= b && b < 127) || b == 9) {
                    assert(!is_header_byte(bytes@[i as int]));
                    return None;
                }
                text.push(b as char);
                assert(text@ =~= Seq::new((i + 1) as nat, |j: int| bytes@[j] as char));
            }
            Some(text)
        },
    }
}

/// The size after the slash of a `Content-Range` value.
pub open spec fn range_total(value: Seq<char>) -> Option<u64> {
    if after_last(value, '/') == "*"@ {
        None
    } else {
        number(after_last(value, '/'))
    }
}

/// The size of a resource: that of its `Content-Range`, else the length of the
/// body.
pub open spec fn total_size(range: Option<Seq<char>>, length: Option<u64>) -> Option<u64> {
    match range {
        Some(value) if range_total(value) is Some => range_total(value),
        _ => length,
    }
}

/// The size of a resource, from its `Content-Range` and the length of the body.
pub fn total_size_from_response(content_range: Option<&str>, content_length: Option<u64>) -> (r:
    Option<u64>)
    ensures
        r == total_size(str_view(content_range), content_length),
{
    if let Some(value) = content_range {
        let total = since_last(value, '/');
        if !same(total, "*") {
            if let Some(total) = read_number(total) {
                return Some(total);
            }
        }
    }
    content_length
}

/// Whether the answer to a `HEAD` request is used: it arrived, and its status
/// is a success or a redirection. If not, the resource is asked for its first
/// byte instead.
pub fn keeps_head_answer(status_code: Option<u16>) -> (r: bool)
    ensures
        r == (status_code matches Some(code) && 200 <= code < 400),
{
    match status_code {
        Some(code) => 200 <= code && code < 400,
        None => false,
    }
}

/// A missing text is an empty one.
pub open spec fn or_empty(text: Option<Seq<char>>) -> Seq<char> {
    match text {
        Some(text) => text,
        None => ""@,
    }
}

/// The text that `text` borrows from.
pub(crate) fn as_text<'a>(text: &'a Option<String>) -> (r: Option<&'a str>)
    ensures
        str_view(r) == string_view(*text),
{
    match text {
        Some(text) => Some(text.as_str()),
        None => None,
    }
}

/// The file name that the headers and the URL of a response give, with the
/// extension of its media type added where it has none.
pub open spec fn head_filename(head: HeadView) -> Option<Seq<char>> {
    match response_name(header_text(head.content_disposition), head.location.text) {
        Some(name) => Some(
            extended(name, name_extension(name) is Some, or_empty(header_text(head.content_type))),
        ),
        None => None,
    }
}

/// The file name that a response gives.
pub fn read_head_filename(head: &ResponseHead) -> (r: Option<String>)
    ensures
        string_view(r) == head_filename(head@),
{
    let disposition = read_header(&head.content_disposition);
    let content_type = read_header(&head.content_type);
    match filename_from_response(as_text(&disposition), head.location.text.as_str()) {
        Some(name) => {
            proof {
                law_response_name_is_safe(
                    header_text(head@.content_disposition),
                    head@.location.text,
                );
                law_safe_name_is_plain(name@);
                law_plain_name_is_portable(name@);
            }
            match &content_type {
                Some(content_type) => Some(ensure_extension(name, content_type.as_str())),
                None => Some(ensure_extension(name, "")),
            }
        },
        None => None,
    }
}

/// What the head of a response says of the resource that `url` asked for.
pub open spec fn resource_of_head(url: Seq<char>, head: HeadView) -> ResourceView {
    ResourceView {
        url,
        kind: kind(header_text(head.content_type), head.location),
        content_type: header_text(head.content_type),
        filename: head_filename(head),
        size: total_size(header_text(head.content_range), head.content_length),
        final_url: head.location.text,
        status_code: head.status_code,
    }
}

/// What the head of a response says of the resource that `url` asked for.
pub fn describe_response(url: &str, head: &ResponseHead) -> (r: ResourceInfo)
    ensures
        r@ == resource_of_head(url@, head@),
{
    let content_type = read_header(&head.content_type);
    let range = read_header(&head.content_range);
    let filename = read_head_filename(head);
    let size = total_size_from_response(as_text(&range), head.content_length);
    let kind = resource_kind(as_text(&content_type), &head.location).to_owned();
    ResourceInfo {
        url: url.to_owned(),
        kind,
        content_type,
        filename,
        size,
        final_url: head.location.text.as_str().to_owned(),
        status_code: head.status_code,
    }
}

/// The size that a `Content-Range` states counts, whatever the length of the
/// body. A range that states none leaves the length.
pub proof fn law_stated_size_counts(range: Seq<char>, size: u64, length: Option<u64>)
    ensures
        total_size(Some(range + "/"@ + decimal(size as nat)), length) == Some(size),
        total_size(Some(range + "/*"@), length) == length,
        total_size(None, length) == length,
{
    lemma_range_with_size(range, size);
    lemma_range_without_size(range);
}

/// The size behind the slash of a range is read.
proof fn lemma_range_with_size(range: Seq<char>, size: u64)
    ensures
        range_total(range + "/"@ + decimal(size as nat)) == Some(size),
{
    let digits = decimal(size as nat);
    lemma_decimal(size as nat);
    law_number_of_decimal(size);
    assert forall|i: int| 0 <= i < digits.len() implies #[trigger] digits[i] != '/' by {
        assert(is_digit(digits[i]));
    }
    law_after_last_of_joined(range, '/', digits);
    reveal_strlit("/");
    assert("/"@ =~= seq!['/']);
    assert(digits != "*"@) by {
        reveal_strlit("*");
        assert(is_digit(digits[0]));
    }
}

/// A star behind the slash of a range is no size.
proof fn lemma_range_without_size(range: Seq<char>)
    ensures
        range_total(range + "/*"@) is None,
{
    reveal_strlit("*");
    reveal_strlit("/*");
    law_after_last_of_joined(range, '/', "*"@);
    assert(range + "/*"@ =~= range + seq!['/'] + "*"@);
}

} // verus!
