use lilia_backend::bib::{
    bib_entry_from_crossref, bib_entry_from_openlibrary, citation_key, filter_alnum,
    isbn_citation_key, last_token, take_before_comma, trim_string, year_from_publish_date,
    CrossrefAuthor, CrossrefDate, CrossrefWork, OpenLibraryAuthor, OpenLibraryBook,
    OpenLibraryPublisher,
};

fn empty_work() -> CrossrefWork {
    CrossrefWork {
        title: None,
        author: None,
        container_title: None,
        published_print: None,
        published_online: None,
        volume: None,
        page: None,
        publisher: None,
        doi: None,
        url: None,
        work_type: None,
    }
}

#[test]
fn text_helpers() {
    assert_eq!(trim_string("  van der Berg \t"), "van der Berg");
    assert_eq!(trim_string("   "), "");
    assert_eq!(take_before_comma("Doe, John"), "Doe");
    assert_eq!(take_before_comma("no comma here"), "no comma here");
    assert_eq!(last_token("Ada Lovelace"), "Lovelace");
    assert_eq!(last_token("  "), "unknown");
    assert_eq!(filter_alnum("O'Brien-Smith 3"), "OBrienSmith3");
    assert_eq!(year_from_publish_date("May 2019"), 2019);
    assert_eq!(year_from_publish_date("19"), 0);
    // the first four digits win, wherever they come from
    assert_eq!(year_from_publish_date("May 21, 2019"), 2120);
}

#[test]
fn citation_keys() {
    assert_eq!(citation_key("Doe, John", 2021), "doe2021");
    assert_eq!(citation_key(" Van Halen , Eddie", 1984), "vanhalen1984");
    assert_eq!(citation_key("", 0), "0");
    assert_eq!(isbn_citation_key("Ada Lovelace", 1843), "lovelace1843");
    assert_eq!(isbn_citation_key("", 2000), "unknown2000");
}

#[test]
fn crossref_article_assembly() {
    let mut work = empty_work();
    work.title = Some(vec!["A Study of Things".to_string()]);
    work.author = Some(vec![
        CrossrefAuthor { given: Some("John".to_string()), family: Some("Doe".to_string()) },
        CrossrefAuthor { given: None, family: Some("Curie".to_string()) },
    ]);
    work.container_title = Some(vec!["Journal of Stuff".to_string()]);
    work.published_print = Some(CrossrefDate { date_parts: Some(vec![vec![2020, 5, 1]]) });
    work.work_type = Some("journal-article".to_string());
    work.volume = Some("7".to_string());
    work.page = Some("1-10".to_string());
    work.publisher = Some("Pub".to_string());
    work.doi = Some("10.1/x".to_string());
    work.url = Some("https://doi.org/10.1/x".to_string());
    let entry = bib_entry_from_crossref(work);
    assert_eq!(entry.title, "A Study of Things");
    assert_eq!(entry.author, "Doe, John and Curie");
    assert_eq!(entry.year, 2020);
    assert_eq!(entry.entry_type, "article");
    assert_eq!(entry.key, "doe2020");
    assert_eq!(entry.journal, Some("Journal of Stuff".to_string()));
    assert_eq!(entry.volume, Some("7".to_string()));
    assert_eq!(entry.pages, Some("1-10".to_string()));
    assert_eq!(entry.publisher, Some("Pub".to_string()));
    assert_eq!(entry.doi, Some("10.1/x".to_string()));
    assert!(entry.isbn.is_none());
    assert!(entry.booktitle.is_none());
}

#[test]
fn crossref_fallbacks() {
    let mut work = empty_work();
    work.published_online = Some(CrossrefDate { date_parts: Some(vec![vec![1999]]) });
    work.work_type = Some("monograph".to_string());
    let entry = bib_entry_from_crossref(work);
    assert_eq!(entry.title, "");
    assert_eq!(entry.author, "");
    assert_eq!(entry.year, 1999);
    assert_eq!(entry.entry_type, "book");
    assert_eq!(entry.key, "1999");
    assert!(entry.journal.is_none());

    let mut work2 = empty_work();
    work2.work_type = Some("something-else".to_string());
    let entry2 = bib_entry_from_crossref(work2);
    assert_eq!(entry2.entry_type, "misc");
    assert_eq!(entry2.year, 0);
    assert_eq!(entry2.key, "0");
}

#[test]
fn openlibrary_book_assembly() {
    let book = OpenLibraryBook {
        title: Some("On Computable Numbers".to_string()),
        authors: Some(vec![
            OpenLibraryAuthor { name: Some("Alan Turing".to_string()) },
            OpenLibraryAuthor { name: None },
            OpenLibraryAuthor { name: Some("Grace Hopper".to_string()) },
        ]),
        publishers: Some(vec![OpenLibraryPublisher { name: Some("Old Press".to_string()) }]),
        publish_date: Some("June 1936".to_string()),
        url: Some("https://openlibrary.org/x".to_string()),
    };
    let entry = bib_entry_from_openlibrary(book, "0123456789".to_string());
    assert_eq!(entry.title, "On Computable Numbers");
    assert_eq!(entry.author, "Alan Turing and Grace Hopper");
    assert_eq!(entry.publisher, Some("Old Press".to_string()));
    assert_eq!(entry.year, 1936);
    assert_eq!(entry.key, "hopper1936");
    assert_eq!(entry.entry_type, "book");
    assert_eq!(entry.isbn, Some("0123456789".to_string()));
    assert!(entry.journal.is_none());
    assert!(entry.doi.is_none());
}

#[test]
fn openlibrary_empty_book() {
    let book = OpenLibraryBook {
        title: None,
        authors: None,
        publishers: Some(vec![]),
        publish_date: None,
        url: None,
    };
    let entry = bib_entry_from_openlibrary(book, "x".to_string());
    assert_eq!(entry.title, "");
    assert_eq!(entry.author, "");
    assert!(entry.publisher.is_none());
    assert_eq!(entry.year, 0);
    assert_eq!(entry.key, "unknown0");
}
