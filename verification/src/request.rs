//! A request as the client hands it to the transport: method, target,
//! headers and body. Building one sends nothing.

use crate::uri::{Uri, UriView};
use vstd::prelude::*;

verus! {

/// The method of a request.
#[derive(Debug, Clone, Copy, PartialEq, Eq, Structural)]
pub enum Method {
    Get,
    Post,
}

/// One header of a request.
#[derive(Debug, Clone, PartialEq, Eq)]
pub struct Header {
    pub name: String,
    pub value: String,
}

/// What a [`Header`] holds.
pub struct HeaderView {
    pub name: Seq<char>,
    pub value: Seq<char>,
}

impl DeepView for Header {
    type V = HeaderView;

    open spec fn deep_view(&self) -> HeaderView {
        HeaderView { name: self.name@, value: self.value@ }
    }
}

/// A request that is built and not yet sent.
#[derive(Debug, Clone, PartialEq, Eq)]
pub struct Request {
    pub method: Method,
    pub uri: Uri,
    pub headers: Vec<Header>,
    pub body: Option<Vec<u8>>,
}

/// What a [`Request`] holds.
pub struct RequestView {
    pub method: Method,
    pub uri: UriView,
    pub headers: Seq<HeaderView>,
    pub body: Option<Seq<u8>>,
}

impl View for Request {
    type V = RequestView;

    open spec fn view(&self) -> RequestView {
        RequestView {
            method: self.method,
            uri: self.uri@,
            headers: self.headers.deep_view(),
            body: match self.body {
                Some(bytes) => Some(bytes@),
                None => None,
            },
        }
    }
}

/// The headers but those named `name`, in their order.
pub open spec fn without(headers: Seq<HeaderView>, name: Seq<char>) -> Seq<HeaderView>
    decreases headers.len(),
{
    if headers.len() == 0 {
        Seq::empty()
    } else if headers.last().name == name {
        without(headers.drop_last(), name)
    } else {
        without(headers.drop_last(), name).push(headers.last())
    }
}

/// The value of the first header named `name`.
pub open spec fn header_value_of(headers: Seq<HeaderView>, name: Seq<char>) -> Option<Seq<char>>
    decreases headers.len(),
{
    if headers.len() == 0 {
        None
    } else if headers[0].name == name {
        Some(headers[0].value)
    } else {
        header_value_of(headers.drop_first(), name)
    }
}

impl RequestView {
    /// The request with the header `name` set to `value`: the headers of
    /// that name are taken out, and the new one stands last.
    pub open spec fn with_header(self, name: Seq<char>, value: Seq<char>) -> RequestView {
        RequestView {
            headers: without(self.headers, name).push(HeaderView { name, value }),
            ..self
        }
    }

    /// The request with `bytes` as its body.
    pub open spec fn with_body(self, bytes: Seq<u8>) -> RequestView {
        RequestView { body: Some(bytes), ..self }
    }

    /// The value of the header `name`.
    pub open spec fn header(self, name: Seq<char>) -> Option<Seq<char>> {
        header_value_of(self.headers, name)
    }
}

/// No header before `n` has the name: the search may start at `n`.
proof fn lemma_header_skip(headers: Seq<HeaderView>, name: Seq<char>, n: int)
    requires
        0 <= n <= headers.len(),
        forall|i: int| 0 <= i < n ==> headers[i].name != name,
    ensures
        header_value_of(headers, name) == header_value_of(headers.skip(n), name),
    decreases n,
{
    if n == 0 {
        assert(headers.skip(0) =~= headers);
    } else {
        lemma_header_skip(headers.drop_first(), name, n - 1);
        assert(headers.drop_first().skip(n - 1) =~= headers.skip(n));
    }
}

/// What is left after the headers named `name` are taken out holds none of
/// that name.
proof fn lemma_without_has_none(headers: Seq<HeaderView>, name: Seq<char>)
    ensures
        forall|i: int|
            0 <= i < without(headers, name).len() ==> (#[trigger] without(headers, name)[i]).name
                != name,
    decreases headers.len(),
{
    if headers.len() > 0 {
        let rest = without(headers.drop_last(), name);
        lemma_without_has_none(headers.drop_last(), name);
        assert forall|i: int| 0 <= i < without(headers, name).len() implies (#[trigger] without(
            headers,
            name,
        )[i]).name != name by {
            if i < rest.len() {
                assert(without(headers, name)[i] == rest[i]);
            }
        }
    }
}

/// A header that was set is the one that is found.
pub proof fn lemma_header_set(request: RequestView, name: Seq<char>, value: Seq<char>)
    ensures
        request.with_header(name, value).header(name) == Some(value),
{
    let kept = without(request.headers, name);
    let all = kept.push(HeaderView { name, value });
    lemma_without_has_none(request.headers, name);
    lemma_header_skip(all, name, kept.len() as int);
    assert(all.skip(kept.len() as int)[0] == HeaderView { name, value });
}

impl Request {
    /// A request for `uri`, with no header and no body.
    pub fn new(method: Method, uri: Uri) -> (r: Request)
        ensures
            r@ == (RequestView { method, uri: uri@, headers: Seq::empty(), body: None }),
    {
        let r = Request { method, uri, headers: Vec::new(), body: None };
        assert(r.headers.deep_view() =~= Seq::<HeaderView>::empty());
        r
    }

    /// Sets the header `name` to `value`, in place of any header of that
    /// name.
    pub fn insert_header(&mut self, name: &str, value: &str)
        ensures
            final(self)@ == old(self)@.with_header(name@, value@),
    {
        let wanted = name.to_owned();
        let mut kept: Vec<Header> = Vec::new();
        let mut i: usize = 0;
        proof {
            assert(kept.deep_view() =~= Seq::<HeaderView>::empty());
            assert(self.headers.deep_view().take(0) =~= Seq::<HeaderView>::empty());
        }
        while i < self.headers.len()
            invariant
                i <= self.headers.len(),
                wanted@ == name@,
                *self == *old(self),
                kept.deep_view() == without(self.headers.deep_view().take(i as int), name@),
            decreases self.headers.len() - i,
        {
            let ghost all = self.headers.deep_view();
            proof {
                assert(all.take(i + 1).drop_last() =~= all.take(i as int));
                assert(all.take(i + 1).last() == self.headers@[i as int].deep_view());
            }
            if !(self.headers[i].name == wanted) {
                let ghost before = kept.deep_view();
                let header = Header {
                    name: self.headers[i].name.clone(),
                    value: self.headers[i].value.clone(),
                };
                kept.push(header);
                proof {
                    assert(kept.deep_view() =~= before.push(self.headers@[i as int].deep_view()));
                }
            }
            i += 1;
        }
        proof {
            let all = self.headers.deep_view();
            assert(all.take(i as int) =~= all);
        }
        let ghost before = kept.deep_view();
        kept.push(Header { name: wanted, value: value.to_owned() });
        proof {
            assert(kept.deep_view() =~= before.push(HeaderView { name: name@, value: value@ }));
        }
        self.headers = kept;
    }

    /// Sets the body.
    pub fn body(self, bytes: Vec<u8>) -> (r: Request)
        ensures
            r@ == self@.with_body(bytes@),
    {
        Request { method: self.method, uri: self.uri, headers: self.headers, body: Some(bytes) }
    }

    /// The value of the first header named `name`.
    pub fn header(&self, name: &str) -> (r: Option<&String>)
        ensures
            match r {
                Some(value) => self@.header(name@) == Some(value@),
                None => self@.header(name@) is None,
            },
    {
        let wanted = name.to_owned();
        let mut i: usize = 0;
        while i < self.headers.len()
            invariant
                i <= self.headers.len(),
                wanted@ == name@,
                forall|k: int| 0 <= k < i ==> (#[trigger] self.headers.deep_view()[k]).name != name@,
            decreases self.headers.len() - i,
        {
            proof {
                assert(self.headers.deep_view()[i as int] == self.headers@[i as int].deep_view());
            }
            if self.headers[i].name == wanted {
                proof {
                    let all = self.headers.deep_view();
                    lemma_header_skip(all, name@, i as int);
                    assert(all.skip(i as int)[0] == all[i as int]);
                }
                return Some(&self.headers[i].value);
            }
            i += 1;
        }
        proof {
            lemma_header_skip(self.headers.deep_view(), name@, i as int);
        }
        None
    }
}

} // verus!
