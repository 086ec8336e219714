//! The head of a client's request.

use vstd::prelude::*;

use crate::http::{head_is_complete, header_value, is_complete};
use crate::name_map::NameMap;
use crate::text::{
    append_bytes, chars_of, chars_split_by, chars_split_once, chars_words, is_number, lower_chars,
    number_of, parse_number, part_of, split_by, text_before, text_of, trim_chars, utf8_text,
    view_of, views, words_of,
};
use vstd::string::*;
use vstd::utf8::*;

verus! {

pub const MAX_REQUEST_HEAD: usize = 65_536;

pub struct RequestHead {
    pub method: String,
    pub target: String,
    pub headers: NameMap<String>,
}

/// What reading from a client came to.
pub enum HeadRead {
    Failed(String),
    Read(Vec<u8>),
}

/// A head, as far as it was read.
pub struct RequestHeadReader {
    pub head: Vec<u8>,
}

impl RequestHeadReader {
    pub open spec fn wf(self) -> bool {
        self.head@.len() <= MAX_REQUEST_HEAD
    }

    pub fn new() -> (reader: RequestHeadReader)
        ensures
            reader.head@.len() == 0,
            reader.wf(),
    {
        RequestHeadReader { head: Vec::new() }
    }

    pub fn complete(&self) -> (yes: bool)
        ensures
            yes == is_complete(self.head@),
    {
        head_is_complete(&self.head)
    }

    /// Why reading is given up; nothing if it goes on.
    pub open spec fn error(self, event: HeadRead) -> Option<Seq<char>> {
        match event {
            HeadRead::Failed(reason) => Some(reason@),
            HeadRead::Read(more) => if more@.len() == 0 {
                Some("empty request"@)
            } else if self.head@.len() + more@.len() > MAX_REQUEST_HEAD {
                Some("request headers too large"@)
            } else {
                None
            },
        }
    }

    /// One read of a single byte.
    pub fn read(&mut self, event: HeadRead) -> (result: Result<(), String>)
        requires
            old(self).wf(),
        ensures
            final(self).wf(),
            match result {
                Ok(_) => old(self).error(event) is None && final(self).head@ == old(self).head@
                    + event->Read_0@,
                Err(error) => old(self).error(event) == Some(error@) && final(self).head@
                    == old(self).head@,
            },
    {
        match event {
            HeadRead::Failed(reason) => Err(reason),
            HeadRead::Read(more) => {
                if more.len() == 0 {
                    Err("empty request".to_owned())
                } else if more.len() > MAX_REQUEST_HEAD - self.head.len() {
                    Err("request headers too large".to_owned())
                } else {
                    append_bytes(&mut self.head, more.as_slice());
                    Ok(())
                }
            },
        }
    }
}

/// What is wrong with a head; nothing if it can be read.
pub open spec fn head_error(head: Seq<u8>) -> Option<Seq<char>> {
    let words = words_of(split_by(decode_utf8(head), "\r\n"@)[0]);
    if !valid_utf8(head) {
        Some("invalid request headers"@)
    } else if words.len() == 0 {
        Some("missing method"@)
    } else if words.len() == 1 {
        Some("missing target"@)
    } else {
        None
    }
}

/// `request` is what a head says.
pub open spec fn is_request_of(request: RequestHead, head: Seq<u8>) -> bool {
    let lines = split_by(decode_utf8(head), "\r\n"@);
    let words = words_of(lines[0]);
    &&& request.method@ == words[0]
    &&& request.target@ == words[1]
    &&& request.headers.wf()
    &&& forall|name: Seq<char>|
        view_of(#[trigger] request.headers.value(name)) == header_value(lines.skip(1), name)
}

fn read_headers(lines: &Vec<Vec<char>>) -> (headers: NameMap<String>)
    requires
        lines@.len() > 0,
    ensures
        headers.wf(),
        forall|name: Seq<char>|
            view_of(#[trigger] headers.value(name)) == header_value(views(lines@).skip(1), name),
{
    let ghost all = views(lines@).skip(1);
    let mut headers = NameMap::new();
    let mut i: usize = 1;
    assert(all.take(0) =~= Seq::empty());
    while i < lines.len()
        invariant
            1 <= i <= lines@.len(),
            all == views(lines@).skip(1),
            headers.wf(),
            forall|name: Seq<char>|
                view_of(#[trigger] headers.value(name)) == header_value(all.take(i - 1), name),
        decreases lines.len() - i,
    {
        proof {
            assert(all.take(i as int).drop_last() =~= all.take(i - 1));
            assert(all.take(i as int).last() == lines@[i as int]@);
        }
        if let Some((name, value)) = chars_split_once(&lines[i], ':') {
            headers.insert(
                text_of(lower_chars(&trim_chars(&name))),
                text_of(trim_chars(&value)),
            );
        }
        i += 1;
    }
    assert(all.take(i - 1) =~= all);
    headers
}

/// Reads a complete head.
pub fn read_head(head: &[u8]) -> (request: Result<RequestHead, String>)
    ensures
        match request {
            Ok(request) => head_error(head@) is None && is_request_of(request, head@),
            Err(error) => head_error(head@) == Some(error@),
        },
{
    let text = match utf8_text(head) {
        Some(text) => text,
        None => {
            return Err("invalid request headers".to_owned());
        },
    };
    proof {
        reveal_strlit("\r\n");
    }
    let lines = chars_split_by(&chars_of(text), &chars_of("\r\n"));
    assert(views(lines@)[0] == lines@[0]@);
    let mut words = chars_words(&lines[0]);
    assert(views(words@).len() == words@.len());
    assert(forall|i: int| 0 <= i < words@.len() ==> #[trigger] views(words@)[i] == words@[i]@);
    if words.len() == 0 {
        return Err("missing method".to_owned());
    }
    if words.len() == 1 {
        return Err("missing target".to_owned());
    }
    let target = words.swap_remove(1);
    let method = words.swap_remove(0);
    let headers = read_headers(&lines);
    Ok(RequestHead { method: text_of(method), target: text_of(target), headers })
}

/// The length that a signed decimal number stands for, if it is one of at most 63 bits.
pub open spec fn length_of(text: Seq<char>) -> Option<u64> {
    let signed = text.len() > 0 && (text[0] == '+' || text[0] == '-');
    let digits = if signed {
        text.skip(1)
    } else {
        text
    };
    let limit: int = if signed && text[0] == '-' {
        0
    } else {
        i64::MAX as int
    };
    if is_number(digits) && number_of(digits) <= limit {
        Some(number_of(digits) as u64)
    } else {
        None
    }
}

/// The length of the body that the headers declare.
pub fn content_length(headers: &NameMap<String>) -> (length: Result<u64, String>)
    requires
        headers.wf(),
    ensures
        match view_of(headers.value("content-length"@)) {
            None => length == Ok::<u64, String>(0),
            Some(raw) => match length {
                Ok(length) => length_of(raw) == Some(length),
                Err(error) => length_of(raw) is None && error@ == "invalid Content-Length"@,
            },
        },
{
    let raw = match headers.get("content-length") {
        Some(raw) => raw.as_str(),
        None => {
            return Ok(0);
        },
    };
    let chars = chars_of(raw);
    let signed = chars.len() > 0 && (chars[0] == '+' || chars[0] == '-');
    let from: usize = if signed {
        1
    } else {
        0
    };
    let digits = text_of(part_of(&chars, from, chars.len()));
    proof {
        if signed {
            assert(digits@ =~= raw@.skip(1));
        } else {
            assert(digits@ =~= raw@);
        }
    }
    let limit: u64 = if signed && chars[0] == '-' {
        0
    } else {
        0x7fff_ffff_ffff_ffff
    };
    match parse_number(digits.as_str()) {
        Some(number) => {
            if number <= limit {
                Ok(number)
            } else {
                Err("invalid Content-Length".to_owned())
            }
        },
        None => Err("invalid Content-Length".to_owned()),
    }
}

/// A target without its query.
pub fn dequery<'a>(path: &'a str) -> (bare: &'a str)
    ensures
        bare@ == crate::text::before(path@, '?'),
{
    text_before(path, '?')
}

} // verus!
