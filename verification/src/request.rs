//! The inbound request as the router sees it: a method, a path, and a
//! case-insensitive multi-valued header list. The one mutation the router
//! performs — overwriting a header with a fixed value — lives here.

use vstd::prelude::*;

use crate::Method;
use crate::text::{eq_ignore_case, str_eq_ignore_case};

verus! {

/// One header line: a name and a value. Names compare ASCII
/// case-insensitively; several lines may share a name.
pub struct Header {
    pub name: String,
    pub value: String,
}

/// An inbound request reduced to the plain values the router reads.
pub struct Request {
    pub method: Method,
    pub path: String,
    pub headers: Vec<Header>,
}

/// The header lines of `hs` whose name is not `name` (up to ASCII case),
/// in their original order.
pub open spec fn without_name(hs: Seq<Header>, name: Seq<char>) -> Seq<Header>
    decreases hs.len(),
{
    if hs.len() == 0 {
        Seq::empty()
    } else {
        let rest = without_name(hs.drop_last(), name);
        if eq_ignore_case(hs.last().name@, name) {
            rest
        } else {
            rest.push(hs.last())
        }
    }
}

/// The value of the first header line of `hs` named `name` (up to ASCII
/// case), if any.
pub open spec fn header_value(hs: Seq<Header>, name: Seq<char>) -> Option<Seq<char>>
    decreases hs.len(),
{
    if hs.len() == 0 {
        None
    } else if eq_ignore_case(hs[0].name@, name) {
        Some(hs[0].value@)
    } else {
        header_value(hs.drop_first(), name)
    }
}

proof fn lemma_without_name_has_no_match(hs: Seq<Header>, name: Seq<char>)
    ensures
        forall|i: int|
            0 <= i < without_name(hs, name).len() ==> !eq_ignore_case(
                #[trigger] without_name(hs, name)[i].name@,
                name,
            ),
    decreases hs.len(),
{
    if hs.len() > 0 {
        lemma_without_name_has_no_match(hs.drop_last(), name);
        let rest = without_name(hs.drop_last(), name);
        if !eq_ignore_case(hs.last().name@, name) {
            assert(without_name(hs, name) == rest.push(hs.last()));
            assert forall|i: int| 0 <= i < without_name(hs, name).len() implies !eq_ignore_case(
                without_name(hs, name)[i].name@,
                name,
            ) by {
                if i < rest.len() {
                    assert(rest.push(hs.last())[i] == rest[i]);
                } else {
                    assert(rest.push(hs.last())[i] == hs.last());
                }
            }
        }
    }
}

proof fn lemma_header_value_of_appended(s: Seq<Header>, h: Header, name: Seq<char>)
    requires
        forall|i: int| 0 <= i < s.len() ==> !eq_ignore_case(#[trigger] s[i].name@, name),
        eq_ignore_case(h.name@, name),
    ensures
        header_value(s.push(h), name) == Some(h.value@),
    decreases s.len(),
{
    if s.len() == 0 {
        assert(s.push(h)[0] == h);
    } else {
        assert(s.push(h)[0] == s[0]);
        assert(s.push(h).drop_first() =~= s.drop_first().push(h));
        assert(forall|i: int|
            0 <= i < s.drop_first().len() ==> !eq_ignore_case(
                #[trigger] s.drop_first()[i].name@,
                name,
            ));
        lemma_header_value_of_appended(s.drop_first(), h, name);
    }
}

impl Request {
    /// Overwrite the header `name` with the single line `name: value`:
    /// every line with that name (up to ASCII case) is removed, the other
    /// lines keep their order, and the new line goes last. Method and path
    /// are untouched.
    pub fn set_header(&mut self, name: &str, value: &str)
        ensures
            final(self).method == old(self).method,
            final(self).path@ == old(self).path@,
            final(self).headers@.len() == without_name(old(self).headers@, name@).len() + 1,
            final(self).headers@.drop_last() == without_name(old(self).headers@, name@),
            final(self).headers@.last().name@ == name@,
            final(self).headers@.last().value@ == value@,
            header_value(final(self).headers@, name@) == Some(value@),
    {
        let ghost orig: Seq<Header> = self.headers@;
        let mut pending: Vec<Header> = Vec::new();
        core::mem::swap(&mut self.headers, &mut pending);
        while pending.len() > 0
            invariant
                pending.len() <= orig.len(),
                pending@ == orig.subrange(orig.len() - pending.len(), orig.len() as int),
                self.headers@ == without_name(
                    orig.subrange(0, orig.len() - pending.len()),
                    name@,
                ),
                self.method == old(self).method,
                self.path == old(self).path,
            decreases pending.len(),
        {
            let ghost done: int = orig.len() - pending.len();
            let h = pending.remove(0);
            proof {
                assert(h == orig[done]);
                assert(pending@ =~= orig.subrange(orig.len() - pending.len(), orig.len() as int));
                assert(orig.subrange(0, done + 1).drop_last() =~= orig.subrange(0, done));
                assert(orig.subrange(0, done + 1).last() == orig[done]);
            }
            if !str_eq_ignore_case(h.name.as_str(), name) {
                self.headers.push(h);
            }
        }
        proof {
            assert(orig.subrange(0, orig.len() as int) =~= orig);
            lemma_without_name_has_no_match(orig, name@);
        }
        let line = Header { name: name.to_owned(), value: value.to_owned() };
        proof {
            assert(eq_ignore_case(line.name@, name@));
            lemma_header_value_of_appended(self.headers@, line, name@);
        }
        self.headers.push(line);
        proof {
            assert(final(self).headers@.drop_last() =~= without_name(orig, name@));
        }
    }

    /// The value of the first header line named `name`, compared up to
    /// ASCII case, if the request carries one.
    pub fn get_header(&self, name: &str) -> (r: Option<&String>)
        ensures
            match r {
                Some(v) => header_value(self.headers@, name@) == Some(v@),
                None => header_value(self.headers@, name@) is None,
            },
    {
        proof {
            assert(self.headers@.skip(0) =~= self.headers@);
        }
        let mut i: usize = 0;
        while i < self.headers.len()
            invariant
                i <= self.headers@.len(),
                header_value(self.headers@, name@) == header_value(
                    self.headers@.skip(i as int),
                    name@,
                ),
            decreases self.headers@.len() - i,
        {
            proof {
                assert(self.headers@.skip(i as int)[0] == self.headers@[i as int]);
                assert(self.headers@.skip(i as int).drop_first() =~= self.headers@.skip(
                    i + 1,
                ));
            }
            if str_eq_ignore_case(self.headers[i].name.as_str(), name) {
                return Some(&self.headers[i].value);
            }
            i += 1;
        }
        None
    }
}

} // verus!
