//! The way back: the foreign component asking the host for a source text by
//! name, in the middle of a compilation.

use crate::blob::Blob;
use crate::os::{CP_UTF8, E_FILE_NOT_FOUND, E_INVALIDARG, HRESULT, S_OK};
use crate::utils::{from_wide, lemma_wide_round_trip, terminated, text_of_wide};
use crate::wide::{WideCode, WideUnit};
use vstd::prelude::*;

verus! {

/// A handler's answer, with the text as a sequence of characters.
pub open spec fn answer_of(source: Option<String>) -> Option<Seq<char>> {
    match source {
        Some(text) => Some(text@),
        None => None,
    }
}

/// What the host offers the compiler: source texts by name.
pub trait DxcIncludeHandler {
    /// Whether `source` is an answer that this handler gives to `filename`.
    /// A handler that says nothing of itself may give any answer.
    open spec fn resolves(&self, filename: Seq<char>, source: Option<Seq<char>>) -> bool {
        true
    }

    /// The source text known as `filename`, if there is one.
    fn load_source(&self, filename: String) -> (source: Option<String>)
        ensures
            self.resolves(filename@, answer_of(source)),
    ;
}

/// What goes back to the compiler for one request: a status and, with the
/// status of success, the source text as a blob.
#[derive(Debug)]
pub struct IncludeResponse {
    pub status: HRESULT,
    pub source: Option<Blob>,
}

impl IncludeResponse {
    /// The response that hands over `text`.
    pub open spec fn found(&self, text: Seq<char>) -> bool {
        &&& self.status == S_OK
        &&& self.source is Some
        &&& self.source->Some_0.bytes() == vstd::utf8::encode_utf8(text)
        &&& self.source->Some_0.code_page() == Some(CP_UTF8)
    }

    /// The response that hands over nothing but `status`.
    pub open spec fn failed(&self, status: HRESULT) -> bool {
        &&& self.status == status
        &&& self.source is None
    }

    /// The response to a request that the handler answered with `source`.
    pub open spec fn carries(&self, source: Option<Seq<char>>) -> bool {
        match source {
            Some(text) => self.found(text),
            None => self.failed(E_FILE_NOT_FOUND),
        }
    }
}

/// Turns a handler's answer into the response for the compiler: the text as
/// a UTF-8 blob, or the status of a file that was not found.
pub fn include_response(source: Option<String>) -> (response: IncludeResponse)
    ensures
        response.carries(answer_of(source)),
{
    match source {
        Some(text) => IncludeResponse {
            status: S_OK,
            source: Some(Blob::from_text(text.as_str())),
        },
        None => IncludeResponse { status: E_FILE_NOT_FOUND, source: None },
    }
}

/// Whether `response` is a response to the compiler's request for the name
/// that arrives as `filename`: what `handler` answers to exactly that name,
/// wrapped, or the status of an invalid argument where the units are no
/// text.
pub open spec fn serves<W: WideCode, H: DxcIncludeHandler>(
    handler: &H,
    filename: Seq<W>,
    response: IncludeResponse,
) -> bool {
    match text_of_wide::<W>(filename) {
        Some(name) => exists|source: Option<Seq<char>>| #[trigger]
            handler.resolves(name, source) && response.carries(source),
        None => response.failed(E_INVALIDARG),
    }
}

/// Whether `handler` is a fixed table: it has one answer to each name.
pub open spec fn is_table<H: DxcIncludeHandler>(handler: &H) -> bool {
    forall|name: Seq<char>, a: Option<Seq<char>>, b: Option<Seq<char>>|
        #[trigger] handler.resolves(name, a) && #[trigger] handler.resolves(name, b) ==> a == b
}

/// Reads the name that the compiler asks for, puts exactly that name to
/// `handler`, once, and wraps what the handler answers. With the response
/// comes the name that was put to the handler, if one was.
fn answer<W: WideUnit, H: DxcIncludeHandler>(handler: &H, filename: &[W]) -> (r: (
    Option<String>,
    IncludeResponse,
))
    ensures
        serves(handler, filename@, r.1),
        answer_of(r.0) == text_of_wide::<W>(filename@),
{
    match from_wide::<W>(filename) {
        Ok(name) => {
            let put = name.clone();
            let source = handler.load_source(name);
            let ghost given = answer_of(source);
            let response = include_response(source);
            assert(handler.resolves(text_of_wide::<W>(filename@)->Some_0, given)
                && response.carries(given));
            (Some(put), response)
        },
        Err(_) => (None, IncludeResponse { status: E_INVALIDARG, source: None }),
    }
}

/// Serves one request of the compiler: reads the name that it asks for,
/// which arrives as a nul-terminated wide string, puts exactly that name to
/// `handler`, and wraps what the handler answers.
///
/// A name that is no text is not put to the handler: the compiler is told
/// that its argument was invalid.
pub fn load_include<W: WideUnit, H: DxcIncludeHandler>(handler: &H, filename: &[W]) -> (response:
    IncludeResponse)
    ensures
        serves(handler, filename@, response),
{
    answer(handler, filename).1
}

/// The names put to a handler after one more request, for the name that
/// arrives as `filename`: one more, that name as it reads, unless the units
/// are no text.
pub open spec fn asked_after<W: WideCode>(asked: Seq<Seq<char>>, filename: Seq<W>) -> Seq<
    Seq<char>,
> {
    match text_of_wide::<W>(filename) {
        Some(name) => asked.push(name),
        None => asked,
    }
}

/// The names put to a handler after `requests`, served one after another.
pub open spec fn asked_after_all<W: WideCode>(
    asked: Seq<Seq<char>>,
    requests: Seq<Seq<W>>,
) -> Seq<Seq<char>>
    decreases requests.len(),
{
    if requests.len() == 0 {
        asked
    } else {
        asked_after(asked_after_all(asked, requests.drop_last()), requests.last())
    }
}

/// A handler at the compiler's service, with the record of the names that
/// were put to it.
#[derive(Debug)]
pub struct IncludeServer<H> {
    handler: H,
    asked: Vec<String>,
}

impl<H> IncludeServer<H> {
    /// The handler that answers.
    pub closed spec fn handler(&self) -> &H {
        &self.handler
    }

    /// The names that were put to the handler, in the order of the
    /// requests.
    pub closed spec fn asked(&self) -> Seq<Seq<char>> {
        Seq::new(self.asked@.len(), |i: int| self.asked@[i]@)
    }

    /// A server that has served nothing yet.
    pub fn new(handler: H) -> (server: Self)
        ensures
            *server.handler() == handler,
            server.asked() == Seq::<Seq<char>>::empty(),
    {
        let server = IncludeServer { handler, asked: Vec::new() };
        assert(server.asked() =~= Seq::<Seq<char>>::empty());
        server
    }

    /// The names that were put to the handler, in the order of the
    /// requests.
    pub fn names(&self) -> (names: &Vec<String>)
        ensures
            names@.len() == self.asked().len(),
            forall|i: int| 0 <= i < names@.len() ==> (#[trigger] names@[i])@ == self.asked()[i],
    {
        &self.asked
    }
}

impl<H: DxcIncludeHandler> IncludeServer<H> {
    /// Serves one request of the compiler as [`load_include`] does, and
    /// records the name that was put to the handler.
    pub fn serve<W: WideUnit>(&mut self, filename: &[W]) -> (response: IncludeResponse)
        ensures
            final(self).handler() == old(self).handler(),
            serves(old(self).handler(), filename@, response),
            final(self).asked() == asked_after(old(self).asked(), filename@),
    {
        let (put, response) = answer(&self.handler, filename);
        match put {
            Some(name) => {
                self.asked.push(name);
                assert(self.asked() =~= asked_after(old(self).asked(), filename@));
            },
            None => {},
        }
        response
    }
}

/// A handler that is a fixed table of names and source texts.
#[derive(Debug)]
pub struct SourceTable {
    entries: Vec<(String, String)>,
}

/// The source text that stands under `name` in `entries`: that of the first
/// entry of that name.
pub open spec fn lookup(entries: Seq<(Seq<char>, Seq<char>)>, name: Seq<char>) -> Option<
    Seq<char>,
>
    decreases entries.len(),
{
    if entries.len() == 0 {
        None
    } else if entries[0].0 == name {
        Some(entries[0].1)
    } else {
        lookup(entries.drop_first(), name)
    }
}

impl SourceTable {
    /// The entries of the table, in the order in which they were put in.
    pub closed spec fn entries(&self) -> Seq<(Seq<char>, Seq<char>)> {
        Seq::new(self.entries@.len(), |i: int| (self.entries@[i].0@, self.entries@[i].1@))
    }

    /// A table without entries.
    pub fn new() -> (table: Self)
        ensures
            table.entries() == Seq::<(Seq<char>, Seq<char>)>::empty(),
    {
        let table = SourceTable { entries: Vec::new() };
        assert(table.entries() =~= Seq::<(Seq<char>, Seq<char>)>::empty());
        table
    }

    /// Puts `source` in under `name`, behind the entries that are there.
    pub fn insert(&mut self, name: String, source: String)
        ensures
            final(self).entries() == old(self).entries().push((name@, source@)),
    {
        self.entries.push((name, source));
        assert(self.entries() =~= old(self).entries().push((name@, source@)));
    }
}

impl DxcIncludeHandler for SourceTable {
    open spec fn resolves(&self, filename: Seq<char>, source: Option<Seq<char>>) -> bool {
        source == lookup(self.entries(), filename)
    }

    fn load_source(&self, filename: String) -> (source: Option<String>) {
        let mut i: usize = 0;
        assert(self.entries().skip(0) =~= self.entries());
        while i < self.entries.len()
            invariant
                i <= self.entries@.len(),
                lookup(self.entries(), filename@) == lookup(
                    self.entries().skip(i as int),
                    filename@,
                ),
            decreases self.entries@.len() - i,
        {
            proof {
                assert(self.entries().skip(i as int).drop_first() =~= self.entries().skip(
                    i + 1,
                ));
                assert(self.entries().skip(i as int)[0] == self.entries()[i as int]);
            }
            if self.entries[i].0 == filename {
                return Some(self.entries[i].1.clone());
            }
            i += 1;
        }
        None
    }
}

/// A table is a fixed table: it has one answer to each name.
pub proof fn lemma_source_table_is_table(table: &SourceTable)
    ensures
        is_table(table),
{
}

/// What a table answers is what stands in it: a response to a request for
/// `name` hands over the source text that [`lookup`] finds under that name,
/// or the status of a file that was not found where it finds none.
pub proof fn lemma_source_table_response<W: WideCode>(
    table: &SourceTable,
    filename: Seq<W>,
    name: Seq<char>,
    response: IncludeResponse,
)
    requires
        text_of_wide::<W>(filename) == Some(name),
        serves(table, filename, response),
    ensures
        response.carries(lookup(table.entries(), name)),
{
}

/// Every request is put to the handler once, under the name as it was sent:
/// after requests for `names`, each sent as the nul-terminated wide string
/// of its name, the names put to the handler are `names`, as many and in
/// that order.
pub proof fn lemma_every_request_is_put_once<W: WideCode>(
    names: Seq<Seq<char>>,
    requests: Seq<Seq<W>>,
)
    requires
        requests.len() == names.len(),
        forall|k: int| 0 <= k < names.len() ==> !(#[trigger] names[k]).contains('\0'),
        forall|k: int| 0 <= k < names.len() ==> #[trigger] requests[k] == terminated::<W>(names[k]),
    ensures
        asked_after_all(Seq::<Seq<char>>::empty(), requests) == names,
    decreases requests.len(),
{
    if requests.len() == 0 {
        assert(names =~= Seq::<Seq<char>>::empty());
    } else {
        let last = names.len() - 1;
        lemma_every_request_is_put_once::<W>(names.drop_last(), requests.drop_last());
        lemma_wide_round_trip::<W>(names[last], Seq::<W>::empty());
        assert(requests[last] == terminated::<W>(names[last]));
        assert(names =~= names.drop_last().push(names[last]));
    }
}

/// Against a fixed table, a request is answered by its name alone: two
/// responses to the same name, whenever they are given and whatever was
/// asked in between, have the same status and hand over the same bytes.
pub proof fn lemma_table_answers_are_fixed<W: WideCode, H: DxcIncludeHandler>(
    handler: &H,
    filename: Seq<W>,
    first: IncludeResponse,
    second: IncludeResponse,
)
    requires
        is_table(handler),
        serves(handler, filename, first),
        serves(handler, filename, second),
    ensures
        first.status == second.status,
        first.source is Some <==> second.source is Some,
        first.source is Some ==> first.source->Some_0.bytes() == second.source->Some_0.bytes()
            && first.source->Some_0.code_page() == second.source->Some_0.code_page(),
{
    match text_of_wide::<W>(filename) {
        Some(name) => {
            let a = choose|source: Option<Seq<char>>| #[trigger]
                handler.resolves(name, source) && first.carries(source);
            let b = choose|source: Option<Seq<char>>| #[trigger]
                handler.resolves(name, source) && second.carries(source);
            assert(a == b);
        },
        None => {},
    }
}

} // verus!
