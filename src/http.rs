//! The library's model of an HTTP request that is ready to be signed and sent.
use vstd::prelude::*;
use vstd::string::*;

verus! {

/// An HTTP request: method, URL, headers in the order they were set, and an
/// optional body. Header names are lowercase. Setting a header removes its
/// earlier entry; where a list holds a name twice, the later entry counts.
#[derive(Debug, Clone)]
pub struct HttpRequest {
    pub method: String,
    pub url: String,
    pub headers: Vec<(String, String)>,
    pub body: Option<Vec<u8>>,
}

/// The model of an [`HttpRequest`], with texts as character sequences.
pub struct HttpRequestView {
    pub method: Seq<char>,
    pub url: Seq<char>,
    pub headers: Seq<(Seq<char>, Seq<char>)>,
    pub body: Option<Seq<u8>>,
}

pub open spec fn headers_view(hs: Seq<(String, String)>) -> Seq<(Seq<char>, Seq<char>)> {
    hs.map_values(|h: (String, String)| (h.0@, h.1@))
}

/// The value that `name` holds in `hs`: that of its last entry.
pub open spec fn header_value(hs: Seq<(Seq<char>, Seq<char>)>, name: Seq<char>) -> Option<Seq<char>>
    decreases hs.len(),
{
    if hs.len() == 0 {
        None
    } else if hs.last().0 == name {
        Some(hs.last().1)
    } else {
        header_value(hs.drop_last(), name)
    }
}

/// `hs` without the entries named `name`, in order.
pub open spec fn without_header(hs: Seq<(Seq<char>, Seq<char>)>, name: Seq<char>) -> Seq<(Seq<char>, Seq<char>)>
    decreases hs.len(),
{
    if hs.len() == 0 {
        hs
    } else if hs.last().0 == name {
        without_header(hs.drop_last(), name)
    } else {
        without_header(hs.drop_last(), name).push(hs.last())
    }
}

pub proof fn lemma_without_header(hs: Seq<(Seq<char>, Seq<char>)>, name: Seq<char>, other: Seq<char>)
    ensures
        header_value(without_header(hs, name), other) == if other == name {
            None
        } else {
            header_value(hs, other)
        },
    decreases hs.len(),
{
    if hs.len() > 0 {
        lemma_without_header(hs.drop_last(), name, other);
        if hs.last().0 != name {
            assert(without_header(hs, name).drop_last() =~= without_header(hs.drop_last(), name));
        }
    }
}

impl View for HttpRequest {
    type V = HttpRequestView;

    open spec fn view(&self) -> HttpRequestView {
        HttpRequestView {
            method: self.method@,
            url: self.url@,
            headers: headers_view(self.headers@),
            body: match self.body {
                Some(b) => Some(b@),
                None => None,
            },
        }
    }
}

impl HttpRequestView {
    pub open spec fn header(self, name: Seq<char>) -> Option<Seq<char>> {
        header_value(self.headers, name)
    }

    /// The same request with `name` set to `value`, in place of any
    /// earlier entry for `name`.
    pub open spec fn with_header(self, name: Seq<char>, value: Seq<char>) -> HttpRequestView {
        HttpRequestView { headers: without_header(self.headers, name).push((name, value)), ..self }
    }
}

pub proof fn lemma_with_header(r: HttpRequestView, name: Seq<char>, value: Seq<char>, other: Seq<char>)
    ensures
        r.with_header(name, value).header(name) == Some(value),
        other != name ==> r.with_header(name, value).header(other) == r.header(other),
{
    assert(r.with_header(name, value).headers.drop_last() =~= without_header(r.headers, name));
    lemma_without_header(r.headers, name, other);
}

impl HttpRequest {
    /// The value of header `name` (lowercase), if it is set.
    pub fn header(&self, name: &str) -> (r: Option<&String>)
        ensures
            match self@.header(name@) {
                Some(v) => r matches Some(s) && s@ == v,
                None => r is None,
            },
    {
        let key = String::from_str(name);
        let mut i = self.headers.len();
        proof {
            assert(headers_view(self.headers@).subrange(0, i as int) =~= headers_view(self.headers@));
        }
        while i > 0
            invariant
                key@ == name@,
                i <= self.headers@.len(),
                header_value(headers_view(self.headers@), name@)
                    == header_value(headers_view(self.headers@).subrange(0, i as int), name@),
            decreases i,
        {
            let ghost hs = headers_view(self.headers@).subrange(0, i as int);
            assert(hs.drop_last() =~= headers_view(self.headers@).subrange(0, i - 1));
            assert(hs.last() == (self.headers@[i - 1].0@, self.headers@[i - 1].1@));
            if self.headers[i - 1].0 == key {
                return Some(&self.headers[i - 1].1);
            }
            i = i - 1;
        }
        None
    }

    /// Sets header `name` (lowercase) to `value`, in place of any earlier value.
    pub fn set_header(&mut self, name: &str, value: String)
        ensures
            final(self)@ == old(self)@.with_header(name@, value@),
    {
        let key = String::from_str(name);
        let ghost hs = headers_view(self.headers@);
        let mut kept: Vec<(String, String)> = Vec::new();
        let mut i: usize = 0;
        while i < self.headers.len()
            invariant
                key@ == name@,
                hs == headers_view(self.headers@),
                i <= self.headers@.len(),
                headers_view(kept@) == without_header(hs.subrange(0, i as int), name@),
            decreases self.headers@.len() - i,
        {
            assert(hs.subrange(0, i + 1).drop_last() =~= hs.subrange(0, i as int));
            if self.headers[i].0 != key {
                let entry = (self.headers[i].0.clone(), self.headers[i].1.clone());
                let ghost before = kept@;
                kept.push(entry);
                assert(headers_view(kept@) =~= headers_view(before).push(hs[i as int]));
            }
            i = i + 1;
        }
        assert(hs.subrange(0, i as int) =~= hs);
        let ghost before = kept@;
        kept.push((key, value));
        assert(headers_view(kept@) =~= headers_view(before).push((name@, value@)));
        self.headers = kept;
    }
}

} // verus!
