use crate::error::Error;
use crate::text::str_eq;
use vstd::prelude::*;

verus! {

/// A type as the API lists it: identifier and display label.
#[derive(Debug, Clone, PartialEq, Eq)]
pub struct CrossRefType {
    /// The identifier of the type.
    pub id: String,
    /// The display label of the type.
    pub label: String,
}

/// The work types known to the API.
#[derive(Debug, Clone, Copy, PartialEq, Eq, Structural)]
pub enum Type {
    BookSection,
    Monograph,
    Report,
    PeerReview,
    BookTrack,
    JournalArticle,
    BookPart,
    Other,
    Book,
    JournalVolume,
    BookSet,
    ReferenceEntry,
    ProceedingsArticle,
    Journal,
    Component,
    BookChapter,
    ProceedingsSeries,
    ReportSeries,
    Proceedings,
    Standard,
    ReferenceBook,
    PostedContent,
    JournalIssue,
    Dissertation,
    Dataset,
    BookSeries,
    EditedBook,
    StandardSeries,
}

impl Type {
    /// The display label.
    pub open spec fn spec_label(&self) -> Seq<char> {
        match self {
            Type::BookSection => "Book Section"@,
            Type::Monograph => "Monograph"@,
            Type::Report => "Report"@,
            Type::PeerReview => "Peer Review"@,
            Type::BookTrack => "Book Track"@,
            Type::JournalArticle => "Journal Article"@,
            Type::BookPart => "Book Part"@,
            Type::Other => "Other"@,
            Type::Book => "Book"@,
            Type::JournalVolume => "Journal Volume"@,
            Type::BookSet => "Book Set"@,
            Type::ReferenceEntry => "Reference Entry"@,
            Type::ProceedingsArticle => "Proceedings Article"@,
            Type::Journal => "Journal"@,
            Type::Component => "Component"@,
            Type::BookChapter => "Book Chapter"@,
            Type::ProceedingsSeries => "Proceedings Series"@,
            Type::ReportSeries => "Report Series"@,
            Type::Proceedings => "Proceedings"@,
            Type::Standard => "Standard"@,
            Type::ReferenceBook => "Reference Book"@,
            Type::PostedContent => "Posted Content"@,
            Type::JournalIssue => "Journal Issue"@,
            Type::Dissertation => "Dissertation"@,
            Type::Dataset => "Dataset"@,
            Type::BookSeries => "Book Series"@,
            Type::EditedBook => "Edited Book"@,
            Type::StandardSeries => "Standard Series"@,
        }
    }

    /// The identifier.
    pub open spec fn spec_id(&self) -> Seq<char> {
        match self {
            Type::BookSection => "book-section"@,
            Type::Monograph => "monograph"@,
            Type::Report => "report"@,
            Type::PeerReview => "peer-review"@,
            Type::BookTrack => "book-track"@,
            Type::JournalArticle => "journal-article"@,
            Type::BookPart => "book-part"@,
            Type::Other => "other"@,
            Type::Book => "book"@,
            Type::JournalVolume => "journal-volume"@,
            Type::BookSet => "book-set"@,
            Type::ReferenceEntry => "reference-entry"@,
            Type::ProceedingsArticle => "proceedings-article"@,
            Type::Journal => "journal"@,
            Type::Component => "component"@,
            Type::BookChapter => "book-chapter"@,
            Type::ProceedingsSeries => "proceedings-series"@,
            Type::ReportSeries => "report-series"@,
            Type::Proceedings => "proceedings"@,
            Type::Standard => "standard"@,
            Type::ReferenceBook => "reference-book"@,
            Type::PostedContent => "posted-content"@,
            Type::JournalIssue => "journal-issue"@,
            Type::Dissertation => "dissertation"@,
            Type::Dataset => "dataset"@,
            Type::BookSeries => "book-series"@,
            Type::EditedBook => "edited-book"@,
            Type::StandardSeries => "standard-series"@,
        }
    }

    /// The type at a position of the declaration order, `k < 28`.
    pub open spec fn spec_nth(k: int) -> Type {
        if k == 0 {
            Type::BookSection
        } else if k == 1 {
            Type::Monograph
        } else if k == 2 {
            Type::Report
        } else if k == 3 {
            Type::PeerReview
        } else if k == 4 {
            Type::BookTrack
        } else if k == 5 {
            Type::JournalArticle
        } else if k == 6 {
            Type::BookPart
        } else if k == 7 {
            Type::Other
        } else if k == 8 {
            Type::Book
        } else if k == 9 {
            Type::JournalVolume
        } else if k == 10 {
            Type::BookSet
        } else if k == 11 {
            Type::ReferenceEntry
        } else if k == 12 {
            Type::ProceedingsArticle
        } else if k == 13 {
            Type::Journal
        } else if k == 14 {
            Type::Component
        } else if k == 15 {
            Type::BookChapter
        } else if k == 16 {
            Type::ProceedingsSeries
        } else if k == 17 {
            Type::ReportSeries
        } else if k == 18 {
            Type::Proceedings
        } else if k == 19 {
            Type::Standard
        } else if k == 20 {
            Type::ReferenceBook
        } else if k == 21 {
            Type::PostedContent
        } else if k == 22 {
            Type::JournalIssue
        } else if k == 23 {
            Type::Dissertation
        } else if k == 24 {
            Type::Dataset
        } else if k == 25 {
            Type::BookSeries
        } else if k == 26 {
            Type::EditedBook
        } else {
            Type::StandardSeries
        }
    }

    /// The position of the type in the declaration order.
    pub open spec fn spec_index(&self) -> int {
        match self {
            Type::BookSection => 0,
            Type::Monograph => 1,
            Type::Report => 2,
            Type::PeerReview => 3,
            Type::BookTrack => 4,
            Type::JournalArticle => 5,
            Type::BookPart => 6,
            Type::Other => 7,
            Type::Book => 8,
            Type::JournalVolume => 9,
            Type::BookSet => 10,
            Type::ReferenceEntry => 11,
            Type::ProceedingsArticle => 12,
            Type::Journal => 13,
            Type::Component => 14,
            Type::BookChapter => 15,
            Type::ProceedingsSeries => 16,
            Type::ReportSeries => 17,
            Type::Proceedings => 18,
            Type::Standard => 19,
            Type::ReferenceBook => 20,
            Type::PostedContent => 21,
            Type::JournalIssue => 22,
            Type::Dissertation => 23,
            Type::Dataset => 24,
            Type::BookSeries => 25,
            Type::EditedBook => 26,
            Type::StandardSeries => 27,
        }
    }

    /// The type whose identifier is `s`, if any.
    pub open spec fn spec_named(s: Seq<char>) -> Option<Type> {
        if exists|t: Type| t.spec_id() == s {
            Some(choose|t: Type| t.spec_id() == s)
        } else {
            None
        }
    }

    /// The display-friendly label of the type.
    pub fn label(&self) -> (r: &'static str)
        ensures
            r@ == self.spec_label(),
    {
        match self {
            Type::BookSection => "Book Section",
            Type::Monograph => "Monograph",
            Type::Report => "Report",
            Type::PeerReview => "Peer Review",
            Type::BookTrack => "Book Track",
            Type::JournalArticle => "Journal Article",
            Type::BookPart => "Book Part",
            Type::Other => "Other",
            Type::Book => "Book",
            Type::JournalVolume => "Journal Volume",
            Type::BookSet => "Book Set",
            Type::ReferenceEntry => "Reference Entry",
            Type::ProceedingsArticle => "Proceedings Article",
            Type::Journal => "Journal",
            Type::Component => "Component",
            Type::BookChapter => "Book Chapter",
            Type::ProceedingsSeries => "Proceedings Series",
            Type::ReportSeries => "Report Series",
            Type::Proceedings => "Proceedings",
            Type::Standard => "Standard",
            Type::ReferenceBook => "Reference Book",
            Type::PostedContent => "Posted Content",
            Type::JournalIssue => "Journal Issue",
            Type::Dissertation => "Dissertation",
            Type::Dataset => "Dataset",
            Type::BookSeries => "Book Series",
            Type::EditedBook => "Edited Book",
            Type::StandardSeries => "Standard Series",
        }
    }

    /// The string that identifies the type.
    pub fn id(&self) -> (r: &'static str)
        ensures
            r@ == self.spec_id(),
    {
        match self {
            Type::BookSection => "book-section",
            Type::Monograph => "monograph",
            Type::Report => "report",
            Type::PeerReview => "peer-review",
            Type::BookTrack => "book-track",
            Type::JournalArticle => "journal-article",
            Type::BookPart => "book-part",
            Type::Other => "other",
            Type::Book => "book",
            Type::JournalVolume => "journal-volume",
            Type::BookSet => "book-set",
            Type::ReferenceEntry => "reference-entry",
            Type::ProceedingsArticle => "proceedings-article",
            Type::Journal => "journal",
            Type::Component => "component",
            Type::BookChapter => "book-chapter",
            Type::ProceedingsSeries => "proceedings-series",
            Type::ReportSeries => "report-series",
            Type::Proceedings => "proceedings",
            Type::Standard => "standard",
            Type::ReferenceBook => "reference-book",
            Type::PostedContent => "posted-content",
            Type::JournalIssue => "journal-issue",
            Type::Dissertation => "dissertation",
            Type::Dataset => "dataset",
            Type::BookSeries => "book-series",
            Type::EditedBook => "edited-book",
            Type::StandardSeries => "standard-series",
        }
    }

    fn nth(k: usize) -> (r: Type)
        requires
            k < 28,
        ensures
            r == Type::spec_nth(k as int),
    {
        if k == 0 {
            Type::BookSection
        } else if k == 1 {
            Type::Monograph
        } else if k == 2 {
            Type::Report
        } else if k == 3 {
            Type::PeerReview
        } else if k == 4 {
            Type::BookTrack
        } else if k == 5 {
            Type::JournalArticle
        } else if k == 6 {
            Type::BookPart
        } else if k == 7 {
            Type::Other
        } else if k == 8 {
            Type::Book
        } else if k == 9 {
            Type::JournalVolume
        } else if k == 10 {
            Type::BookSet
        } else if k == 11 {
            Type::ReferenceEntry
        } else if k == 12 {
            Type::ProceedingsArticle
        } else if k == 13 {
            Type::Journal
        } else if k == 14 {
            Type::Component
        } else if k == 15 {
            Type::BookChapter
        } else if k == 16 {
            Type::ProceedingsSeries
        } else if k == 17 {
            Type::ReportSeries
        } else if k == 18 {
            Type::Proceedings
        } else if k == 19 {
            Type::Standard
        } else if k == 20 {
            Type::ReferenceBook
        } else if k == 21 {
            Type::PostedContent
        } else if k == 22 {
            Type::JournalIssue
        } else if k == 23 {
            Type::Dissertation
        } else if k == 24 {
            Type::Dataset
        } else if k == 25 {
            Type::BookSeries
        } else if k == 26 {
            Type::EditedBook
        } else {
            Type::StandardSeries
        }
    }

    /// Reads a type from its identifier.
    pub fn parse(s: &str) -> (r: Result<Type, Error>)
        ensures
            r is Ok <==> Type::spec_named(s@) is Some,
            match r {
                Ok(t) => t.spec_id() == s@ && Type::spec_named(s@) == Some(t),
                Err(e) => (forall|t: Type| t.spec_id() != s@) && (e
                    matches Error::InvalidTypeName { name } && name@ == s@),
            },
    {
        let mut k: usize = 0;
        while k < 28
            invariant
                k <= 28,
                forall|j: int| 0 <= j < k ==> Type::spec_nth(j).spec_id() != s@,
            decreases 28 - k,
        {
            let t = Type::nth(k);
            if str_eq(t.id(), s) {
                proof {
                    lemma_type_round_trip(t);
                }
                return Ok(t);
            }
            k = k + 1;
        }
        assert forall|t: Type| t.spec_id() != s@ by {
            assert(Type::spec_nth(t.spec_index()) == t);
        }
        Err(Error::InvalidTypeName { name: s.to_owned() })
    }
}

impl std::str::FromStr for Type {
    type Err = Error;

    fn from_str(s: &str) -> Result<Type, Error> {
        Type::parse(s)
    }
}

/// The identifier as characters.
pub open spec fn id_chars(t: Type) -> Seq<char> {
    match t {
        Type::BookSection => seq!['b', 'o', 'o', 'k', '-', 's', 'e', 'c', 't', 'i', 'o', 'n'],
        Type::Monograph => seq!['m', 'o', 'n', 'o', 'g', 'r', 'a', 'p', 'h'],
        Type::Report => seq!['r', 'e', 'p', 'o', 'r', 't'],
        Type::PeerReview => seq!['p', 'e', 'e', 'r', '-', 'r', 'e', 'v', 'i', 'e', 'w'],
        Type::BookTrack => seq!['b', 'o', 'o', 'k', '-', 't', 'r', 'a', 'c', 'k'],
        Type::JournalArticle => seq!['j', 'o', 'u', 'r', 'n', 'a', 'l', '-', 'a', 'r', 't', 'i', 'c', 'l', 'e'],
        Type::BookPart => seq!['b', 'o', 'o', 'k', '-', 'p', 'a', 'r', 't'],
        Type::Other => seq!['o', 't', 'h', 'e', 'r'],
        Type::Book => seq!['b', 'o', 'o', 'k'],
        Type::JournalVolume => seq!['j', 'o', 'u', 'r', 'n', 'a', 'l', '-', 'v', 'o', 'l', 'u', 'm', 'e'],
        Type::BookSet => seq!['b', 'o', 'o', 'k', '-', 's', 'e', 't'],
        Type::ReferenceEntry => seq!['r', 'e', 'f', 'e', 'r', 'e', 'n', 'c', 'e', '-', 'e', 'n', 't', 'r', 'y'],
        Type::ProceedingsArticle => seq!['p', 'r', 'o', 'c', 'e', 'e', 'd', 'i', 'n', 'g', 's', '-', 'a', 'r', 't', 'i', 'c', 'l', 'e'],
        Type::Journal => seq!['j', 'o', 'u', 'r', 'n', 'a', 'l'],
        Type::Component => seq!['c', 'o', 'm', 'p', 'o', 'n', 'e', 'n', 't'],
        Type::BookChapter => seq!['b', 'o', 'o', 'k', '-', 'c', 'h', 'a', 'p', 't', 'e', 'r'],
        Type::ProceedingsSeries => seq!['p', 'r', 'o', 'c', 'e', 'e', 'd', 'i', 'n', 'g', 's', '-', 's', 'e', 'r', 'i', 'e', 's'],
        Type::ReportSeries => seq!['r', 'e', 'p', 'o', 'r', 't', '-', 's', 'e', 'r', 'i', 'e', 's'],
        Type::Proceedings => seq!['p', 'r', 'o', 'c', 'e', 'e', 'd', 'i', 'n', 'g', 's'],
        Type::Standard => seq!['s', 't', 'a', 'n', 'd', 'a', 'r', 'd'],
        Type::ReferenceBook => seq!['r', 'e', 'f', 'e', 'r', 'e', 'n', 'c', 'e', '-', 'b', 'o', 'o', 'k'],
        Type::PostedContent => seq!['p', 'o', 's', 't', 'e', 'd', '-', 'c', 'o', 'n', 't', 'e', 'n', 't'],
        Type::JournalIssue => seq!['j', 'o', 'u', 'r', 'n', 'a', 'l', '-', 'i', 's', 's', 'u', 'e'],
        Type::Dissertation => seq!['d', 'i', 's', 's', 'e', 'r', 't', 'a', 't', 'i', 'o', 'n'],
        Type::Dataset => seq!['d', 'a', 't', 'a', 's', 'e', 't'],
        Type::BookSeries => seq!['b', 'o', 'o', 'k', '-', 's', 'e', 'r', 'i', 'e', 's'],
        Type::EditedBook => seq!['e', 'd', 'i', 't', 'e', 'd', '-', 'b', 'o', 'o', 'k'],
        Type::StandardSeries => seq!['s', 't', 'a', 'n', 'd', 'a', 'r', 'd', '-', 's', 'e', 'r', 'i', 'e', 's'],
    }
}

proof fn lemma_id_chars(t: Type)
    ensures
        t.spec_id() == id_chars(t),
{
    reveal_strlit("book-section");
    reveal_strlit("monograph");
    reveal_strlit("report");
    reveal_strlit("peer-review");
    reveal_strlit("book-track");
    reveal_strlit("journal-article");
    reveal_strlit("book-part");
    reveal_strlit("other");
    reveal_strlit("book");
    reveal_strlit("journal-volume");
    reveal_strlit("book-set");
    reveal_strlit("reference-entry");
    reveal_strlit("proceedings-article");
    reveal_strlit("journal");
    reveal_strlit("component");
    reveal_strlit("book-chapter");
    reveal_strlit("proceedings-series");
    reveal_strlit("report-series");
    reveal_strlit("proceedings");
    reveal_strlit("standard");
    reveal_strlit("reference-book");
    reveal_strlit("posted-content");
    reveal_strlit("journal-issue");
    reveal_strlit("dissertation");
    reveal_strlit("dataset");
    reveal_strlit("book-series");
    reveal_strlit("edited-book");
    reveal_strlit("standard-series");
    match t {
        Type::BookSection => assert(t.spec_id() =~= id_chars(t)),
        Type::Monograph => assert(t.spec_id() =~= id_chars(t)),
        Type::Report => assert(t.spec_id() =~= id_chars(t)),
        Type::PeerReview => assert(t.spec_id() =~= id_chars(t)),
        Type::BookTrack => assert(t.spec_id() =~= id_chars(t)),
        Type::JournalArticle => assert(t.spec_id() =~= id_chars(t)),
        Type::BookPart => assert(t.spec_id() =~= id_chars(t)),
        Type::Other => assert(t.spec_id() =~= id_chars(t)),
        Type::Book => assert(t.spec_id() =~= id_chars(t)),
        Type::JournalVolume => assert(t.spec_id() =~= id_chars(t)),
        Type::BookSet => assert(t.spec_id() =~= id_chars(t)),
        Type::ReferenceEntry => assert(t.spec_id() =~= id_chars(t)),
        Type::ProceedingsArticle => assert(t.spec_id() =~= id_chars(t)),
        Type::Journal => assert(t.spec_id() =~= id_chars(t)),
        Type::Component => assert(t.spec_id() =~= id_chars(t)),
        Type::BookChapter => assert(t.spec_id() =~= id_chars(t)),
        Type::ProceedingsSeries => assert(t.spec_id() =~= id_chars(t)),
        Type::ReportSeries => assert(t.spec_id() =~= id_chars(t)),
        Type::Proceedings => assert(t.spec_id() =~= id_chars(t)),
        Type::Standard => assert(t.spec_id() =~= id_chars(t)),
        Type::ReferenceBook => assert(t.spec_id() =~= id_chars(t)),
        Type::PostedContent => assert(t.spec_id() =~= id_chars(t)),
        Type::JournalIssue => assert(t.spec_id() =~= id_chars(t)),
        Type::Dissertation => assert(t.spec_id() =~= id_chars(t)),
        Type::Dataset => assert(t.spec_id() =~= id_chars(t)),
        Type::BookSeries => assert(t.spec_id() =~= id_chars(t)),
        Type::EditedBook => assert(t.spec_id() =~= id_chars(t)),
        Type::StandardSeries => assert(t.spec_id() =~= id_chars(t)),
    }
}

/// Distinct types have distinct identifiers.
pub proof fn lemma_type_id_injective(a: Type, b: Type)
    requires
        a.spec_id() == b.spec_id(),
    ensures
        a == b,
{
    lemma_id_chars(a);
    lemma_id_chars(b);
    let (x, y) = (id_chars(a), id_chars(b));
    assert(x.len() == y.len() && x[0] == y[0] && x[1] == y[1] && x[2] == y[2] && x[3] == y[3]);
    assert(x.len() > 5 ==> x[5] == y[5]);
    assert(x.len() > 8 ==> x[8] == y[8]);
}

/// Reading the identifier of a type gives that type back.
pub proof fn lemma_type_round_trip(k: Type)
    ensures
        Type::spec_named(k.spec_id()) == Some(k),
{
    let t = choose|t: Type| t.spec_id() == k.spec_id();
    lemma_type_id_injective(t, k);
}

impl Type {
    /// The identifier and label of the type.
    pub fn to_crossref_type(self) -> (r: CrossRefType)
        ensures
            r.id@ == self.spec_id(),
            r.label@ == self.spec_label(),
    {
        CrossRefType { id: self.id().to_owned(), label: self.label().to_owned() }
    }
}

} // verus!
