//! The response of the API and the selection of what is shown from it.

use vstd::prelude::*;

verus! {

/// Binary data carried inside a response as base64 text.
#[derive(Clone, Debug, PartialEq, Eq)]
pub struct InlineData {
    pub mime_type: String,
    pub data: String,
}

/// One fragment of a candidate: text, inline data, both or neither.
#[derive(Clone, Debug, PartialEq, Eq)]
pub struct ResponsePart {
    pub text: Option<String>,
    pub inline_data: Option<InlineData>,
}

/// The parts of one candidate.
#[derive(Clone, Debug, PartialEq, Eq)]
pub struct CandidateContent {
    pub parts: Vec<ResponsePart>,
}

/// One proposed answer.
#[derive(Clone, Debug, PartialEq, Eq)]
pub struct Candidate {
    pub content: CandidateContent,
}

/// The answer of the API: its candidates in order.
#[derive(Clone, Debug, PartialEq, Eq)]
pub struct Response {
    pub candidates: Vec<Candidate>,
}

/// Inline data as a mathematical value.
pub struct InlineDataView {
    pub mime_type: Seq<char>,
    pub data: Seq<char>,
}

/// A part as a mathematical value.
pub struct PartView {
    pub text: Option<Seq<char>>,
    pub inline_data: Option<InlineDataView>,
}

impl View for InlineData {
    type V = InlineDataView;

    open spec fn view(&self) -> InlineDataView {
        InlineDataView { mime_type: self.mime_type@, data: self.data@ }
    }
}

impl View for ResponsePart {
    type V = PartView;

    open spec fn view(&self) -> PartView {
        PartView {
            text: match self.text {
                Some(t) => Some(t@),
                None => None,
            },
            inline_data: match self.inline_data {
                Some(d) => Some(d@),
                None => None,
            },
        }
    }
}

/// A content is the sequence of its parts.
impl View for CandidateContent {
    type V = Seq<PartView>;

    open spec fn view(&self) -> Seq<PartView> {
        self.parts@.map_values(|p: ResponsePart| p@)
    }
}

/// A candidate is the sequence of its parts.
impl View for Candidate {
    type V = Seq<PartView>;

    open spec fn view(&self) -> Seq<PartView> {
        self.content@
    }
}

/// A response is the sequence of its candidates, each the sequence of its
/// parts.
impl View for Response {
    type V = Seq<Seq<PartView>>;

    open spec fn view(&self) -> Seq<Seq<PartView>> {
        self.candidates@.map_values(|c: Candidate| c@)
    }
}

/// The text that a response shows: that of the first part of the first
/// candidate, where both exist and the part has text.
pub open spec fn first_text(response: Seq<Seq<PartView>>) -> Option<Seq<char>> {
    if response.len() > 0 && response[0].len() > 0 {
        response[0][0].text
    } else {
        None
    }
}

/// Only the first part of the first candidate matters for the text: two
/// responses that begin with the same part show the same text.
pub proof fn lemma_text_ignores_rest(response: Seq<Seq<PartView>>, other: Seq<Seq<PartView>>)
    requires
        response.len() > 0,
        response[0].len() > 0,
        other.len() > 0,
        other[0].len() > 0,
        other[0][0] == response[0][0],
    ensures
        first_text(other) == first_text(response),
{
}

/// Part `part` of candidate `candidate` exists and carries inline data.
pub open spec fn carries_inline_data(response: Seq<Seq<PartView>>, candidate: int, part: int) -> bool {
    &&& 0 <= candidate < response.len()
    &&& 0 <= part < response[candidate].len()
    &&& response[candidate][part].inline_data is Some
}

/// The first position comes before the second in reading order: an earlier
/// candidate, or the same candidate and an earlier part.
pub open spec fn comes_before(c1: int, p1: int, c2: int, p2: int) -> bool {
    c1 < c2 || (c1 == c2 && p1 < p2)
}

/// The position carries inline data and no position before it does.
pub open spec fn is_first_inline_data(response: Seq<Seq<PartView>>, candidate: int, part: int) -> bool {
    &&& carries_inline_data(response, candidate, part)
    &&& forall|c: int, p: int| #[trigger]
        carries_inline_data(response, c, p) ==> !comes_before(c, p, candidate, part)
}

/// Some part of some candidate carries inline data.
pub open spec fn has_inline_data(response: Seq<Seq<PartView>>) -> bool {
    exists|c: int, p: int| carries_inline_data(response, c, p)
}

/// The inline data that a response yields: that of the first part, in
/// reading order, that carries any.
pub open spec fn first_inline_data(response: Seq<Seq<PartView>>) -> Option<InlineDataView> {
    if exists|c: int, p: int| is_first_inline_data(response, c, p) {
        let (c, p) = choose|c: int, p: int| is_first_inline_data(response, c, p);
        response[c][p].inline_data
    } else {
        None
    }
}

/// At most one position is the first that carries inline data.
pub proof fn lemma_first_inline_data_unique(
    response: Seq<Seq<PartView>>,
    c1: int,
    p1: int,
    c2: int,
    p2: int,
)
    requires
        is_first_inline_data(response, c1, p1),
        is_first_inline_data(response, c2, p2),
    ensures
        c1 == c2,
        p1 == p2,
{
}

/// Where a position carries inline data, some position is the first to do
/// so.
pub proof fn lemma_first_inline_data_exists(response: Seq<Seq<PartView>>, candidate: int, part: int)
    requires
        carries_inline_data(response, candidate, part),
    ensures
        exists|c: int, p: int| is_first_inline_data(response, c, p),
    decreases candidate, part,
{
    if exists|c: int, p: int|
        carries_inline_data(response, c, p) && comes_before(c, p, candidate, part) {
        let (c, p) = choose|c: int, p: int|
            carries_inline_data(response, c, p) && comes_before(c, p, candidate, part);
        lemma_first_inline_data_exists(response, c, p);
    } else {
        assert(is_first_inline_data(response, candidate, part));
    }
}

/// A response yields inline data exactly when some part of some candidate
/// carries any.
pub proof fn lemma_yields_iff_carried(response: Seq<Seq<PartView>>)
    ensures
        first_inline_data(response) is Some <==> has_inline_data(response),
{
    if has_inline_data(response) {
        let (c, p) = choose|c: int, p: int| carries_inline_data(response, c, p);
        lemma_first_inline_data_exists(response, c, p);
        let (c0, p0) = choose|c: int, p: int| is_first_inline_data(response, c, p);
        lemma_first_inline_data_at(response, c0, p0);
    } else {
        lemma_no_inline_data(response);
    }
}

/// What comes after the first part that carries inline data does not
/// matter: two responses that agree up to and including that part yield the
/// same.
pub proof fn lemma_later_parts_ignored(
    response: Seq<Seq<PartView>>,
    other: Seq<Seq<PartView>>,
    candidate: int,
    part: int,
)
    requires
        is_first_inline_data(response, candidate, part),
        candidate < other.len(),
        part < other[candidate].len(),
        forall|c: int| 0 <= c < candidate ==> #[trigger] other[c] == response[c],
        forall|p: int| 0 <= p <= part ==> #[trigger] other[candidate][p] == response[candidate][p],
    ensures
        first_inline_data(other) == first_inline_data(response),
{
    assert forall|c: int, p: int| #[trigger] carries_inline_data(other, c, p) implies !comes_before(
        c,
        p,
        candidate,
        part,
    ) by {
        if comes_before(c, p, candidate, part) {
            assert(carries_inline_data(response, c, p));
        }
    }
    assert(is_first_inline_data(other, candidate, part));
    lemma_first_inline_data_at(other, candidate, part);
    lemma_first_inline_data_at(response, candidate, part);
}

/// A response without candidates yields no inline data, and so does one
/// none of whose parts carries any.
pub proof fn lemma_nothing_carried(response: Seq<Seq<PartView>>)
    requires
        response.len() == 0 || forall|c: int, p: int|
            0 <= c < response.len() && 0 <= p < response[c].len() ==> (
            #[trigger] response[c][p]).inline_data is None,
    ensures
        !has_inline_data(response),
        first_inline_data(response) is None,
{
    assert forall|c: int, p: int| !carries_inline_data(response, c, p) by {
        if 0 <= c < response.len() && 0 <= p < response[c].len() {
            assert(response[c][p].inline_data is None);
        }
    }
}

/// A response without inline data yields none.
pub proof fn lemma_no_inline_data(response: Seq<Seq<PartView>>)
    requires
        !has_inline_data(response),
    ensures
        first_inline_data(response) is None,
{
}

/// What the first carrying position holds is what the response yields.
pub proof fn lemma_first_inline_data_at(response: Seq<Seq<PartView>>, candidate: int, part: int)
    requires
        is_first_inline_data(response, candidate, part),
    ensures
        first_inline_data(response) == response[candidate][part].inline_data,
{
    let (c, p) = choose|c: int, p: int| is_first_inline_data(response, c, p);
    lemma_first_inline_data_unique(response, c, p, candidate, part);
}

impl Response {
    /// Returns the text of the first part of the first candidate, if there
    /// is such a part and it has text.
    pub fn first_text(&self) -> (text: Option<&String>)
        ensures
            match text {
                Some(t) => first_text(self@) == Some(t@),
                None => first_text(self@) is None,
            },
    {
        if self.candidates.len() == 0 {
            return None;
        }
        let candidate = &self.candidates[0];
        if candidate.content.parts.len() == 0 {
            return None;
        }
        match &candidate.content.parts[0].text {
            Some(t) => Some(t),
            None => None,
        }
    }

    /// Returns the inline data of the first part that carries any, going
    /// through the candidates in order and through the parts of each in
    /// order.
    pub fn first_inline_data(&self) -> (found: Option<&InlineData>)
        ensures
            match found {
                Some(d) => first_inline_data(self@) == Some(d@),
                None => first_inline_data(self@) is None,
            },
            found is None <==> !has_inline_data(self@),
    {
        let mut c: usize = 0;
        while c < self.candidates.len()
            invariant
                c <= self.candidates.len(),
                forall|a: int, b: int| #[trigger]
                    carries_inline_data(self@, a, b) ==> a >= c,
            decreases self.candidates.len() - c,
        {
            let parts = &self.candidates[c].content.parts;
            let mut p: usize = 0;
            while p < parts.len()
                invariant
                    c < self.candidates.len(),
                    parts == &self.candidates@[c as int].content.parts,
                    p <= parts.len(),
                    forall|a: int, b: int| #[trigger]
                        carries_inline_data(self@, a, b) ==> !comes_before(a, b, c as int, p as int),
                decreases parts.len() - p,
            {
                match &parts[p].inline_data {
                    Some(d) => {
                        proof {
                            assert(self@[c as int][p as int].inline_data == Some(d@));
                            assert(is_first_inline_data(self@, c as int, p as int));
                            lemma_first_inline_data_at(self@, c as int, p as int);
                            assert(has_inline_data(self@));
                        }
                        return Some(d);
                    },
                    None => {
                        proof {
                            assert(self@[c as int][p as int].inline_data is None);
                        }
                    },
                }
                p += 1;
            }
            c += 1;
        }
        proof {
            assert(!has_inline_data(self@));
            lemma_no_inline_data(self@);
        }
        None
    }
}

} // verus!
