use crossref::error::Error;
use crossref::types::Type;

#[test]
fn type_id_and_label() {
    assert_eq!(Type::JournalArticle.id(), "journal-article");
    assert_eq!(Type::JournalArticle.label(), "Journal Article");
    assert_eq!(Type::StandardSeries.id(), "standard-series");
    assert_eq!(Type::PostedContent.label(), "Posted Content");
    let t = Type::BookChapter.to_crossref_type();
    assert_eq!(t.id, "book-chapter");
    assert_eq!(t.label, "Book Chapter");
}

#[test]
fn type_parse_round_trip() {
    let all = [
        Type::BookSection, Type::Monograph, Type::Report, Type::PeerReview, Type::BookTrack,
        Type::JournalArticle, Type::BookPart, Type::Other, Type::Book, Type::JournalVolume,
        Type::BookSet, Type::ReferenceEntry, Type::ProceedingsArticle, Type::Journal,
        Type::Component, Type::BookChapter, Type::ProceedingsSeries, Type::ReportSeries,
        Type::Proceedings, Type::Standard, Type::ReferenceBook, Type::PostedContent,
        Type::JournalIssue, Type::Dissertation, Type::Dataset, Type::BookSeries,
        Type::EditedBook, Type::StandardSeries,
    ];
    for t in all {
        assert_eq!(Type::parse(t.id()), Ok(t));
        assert_eq!(t.id().parse::<Type>(), Ok(t));
    }
}

#[test]
fn type_parse_unknown() {
    assert_eq!(
        Type::parse("book section"),
        Err(Error::InvalidTypeName { name: "book section".to_string() })
    );
    assert_eq!(
        "Book".parse::<Type>(),
        Err(Error::InvalidTypeName { name: "Book".to_string() })
    );
}
