use devto_fetcher::articles::{Article, ArticleContent, ArticlePreFetch};
use devto_fetcher::errors::Error;
use devto_fetcher::fetcher::{
    Action, ContentDecodeOutcome, DevToFetcher, FetchOutcome, ItemOutcome, ListDecodeOutcome,
    PageEvent, Stage,
};

fn preview(id: u128, title: &str, description: &str) -> ArticlePreFetch {
    ArticlePreFetch {
        id,
        title: title.to_string(),
        description: description.to_string(),
    }
}

fn content(body_html: &str) -> ArticleContent {
    ArticleContent {
        body_html: body_html.to_string(),
    }
}

#[test]
fn from_config_rejects_zero_page_size() {
    let r = DevToFetcher::from_config(0);
    assert!(matches!(r, Err(Error::Invalid(_))));
}

#[test]
fn from_config_starts_at_page_one() {
    let f = DevToFetcher::from_config(30).unwrap();
    assert_eq!(f.per_page, 30);
    assert_eq!(f.page, 1);
    assert_eq!(f.stage, Stage::FetchingList);
    assert_eq!(f.pending.len(), 0);
    assert_eq!(
        f.start(),
        Action::FetchList {
            page: 1,
            per_page: 30
        }
    );
}

#[test]
fn transport_failure_retries_same_page() {
    let mut f = DevToFetcher::from_config(30).unwrap();
    let action = f.on_list_fetch(FetchOutcome::TransportFailure);
    assert_eq!(f.page, 1);
    assert_eq!(f.stage, Stage::FetchingList);
    assert_eq!(
        action,
        Action::FetchList {
            page: 1,
            per_page: 30
        }
    );
}

#[test]
fn list_success_advances_page() {
    let mut f = DevToFetcher::from_config(30).unwrap();
    let action = f.on_list_fetch(FetchOutcome::Success);
    assert_eq!(f.page, 2);
    assert_eq!(f.stage, Stage::DecodingList);
    assert_eq!(action, Action::DecodeList);
}

#[test]
fn list_decode_failure_skips_page() {
    let mut f = DevToFetcher::from_config(30).unwrap();
    f.on_list_fetch(FetchOutcome::Success);
    let action = f.on_list_decode(ListDecodeOutcome::DecodeFailure);
    // The page number already moved, so the skipped page is not re-fetched.
    assert_eq!(f.page, 2);
    assert_eq!(f.stage, Stage::FetchingList);
    assert_eq!(
        action,
        Action::FetchList {
            page: 2,
            per_page: 30
        }
    );
}

#[test]
fn empty_page_goes_back_to_list() {
    let mut f = DevToFetcher::from_config(30).unwrap();
    f.on_list_fetch(FetchOutcome::Success);
    let action = f.on_list_decode(ListDecodeOutcome::Decoded(Vec::new()));
    assert_eq!(f.stage, Stage::FetchingList);
    assert_eq!(
        action,
        Action::FetchList {
            page: 2,
            per_page: 30
        }
    );
}

#[test]
fn decoded_page_requests_first_item() {
    let mut f = DevToFetcher::from_config(2).unwrap();
    f.on_list_fetch(FetchOutcome::Success);
    let action = f.on_list_decode(ListDecodeOutcome::Decoded(vec![
        preview(1, "a", "da"),
        preview(2, "b", "db"),
    ]));
    assert_eq!(f.stage, Stage::FetchingContent);
    assert_eq!(f.pending.len(), 2);
    assert_eq!(action, Action::FetchContent { id: 1 });
}

#[test]
fn cancellation_during_list_fetch_stops_loop() {
    let mut f = DevToFetcher::from_config(30).unwrap();
    let action = f.on_list_fetch(FetchOutcome::Cancelled);
    assert_eq!(f.stage, Stage::Stopped);
    assert_eq!(f.page, 1);
    assert_eq!(action, Action::Stop);
}

#[test]
fn cancellation_during_list_decode_stops_loop() {
    let mut f = DevToFetcher::from_config(30).unwrap();
    f.on_list_fetch(FetchOutcome::Success);
    let action = f.on_list_decode(ListDecodeOutcome::Cancelled);
    assert_eq!(f.stage, Stage::Stopped);
    assert_eq!(action, Action::Stop);
}

#[test]
fn item_transport_failure_skips_item_only() {
    let mut f = DevToFetcher::from_config(2).unwrap();
    f.on_list_fetch(FetchOutcome::Success);
    f.on_list_decode(ListDecodeOutcome::Decoded(vec![
        preview(1, "a", "da"),
        preview(2, "b", "db"),
    ]));
    let action = f.on_content_fetch(FetchOutcome::TransportFailure);
    // The loop moves on to the next item; it does not stop.
    assert_eq!(f.stage, Stage::FetchingContent);
    assert_eq!(action, Action::FetchContent { id: 2 });
}

#[test]
fn item_decode_failure_skips_item_only() {
    let mut f = DevToFetcher::from_config(1).unwrap();
    f.on_list_fetch(FetchOutcome::Success);
    f.on_list_decode(ListDecodeOutcome::Decoded(vec![preview(7, "a", "da")]));
    let action = f.on_content_fetch(FetchOutcome::Success);
    assert_eq!(action, Action::DecodeContent);
    let (record, action) = f.on_content_decode(ContentDecodeOutcome::DecodeFailure);
    assert!(record.is_none());
    assert_eq!(f.stage, Stage::FetchingList);
    assert_eq!(
        action,
        Action::FetchList {
            page: 2,
            per_page: 1
        }
    );
}

#[test]
fn resolved_item_is_emitted_whole() {
    let mut f = DevToFetcher::from_config(1).unwrap();
    f.on_list_fetch(FetchOutcome::Success);
    f.on_list_decode(ListDecodeOutcome::Decoded(vec![preview(
        7, "title", "desc",
    )]));
    f.on_content_fetch(FetchOutcome::Success);
    let (record, action) = f.on_content_decode(ContentDecodeOutcome::Decoded(content("<p>x</p>")));
    let record = record.unwrap();
    assert_eq!(record.id, 7);
    assert_eq!(record.title, "title");
    assert_eq!(record.description, "desc");
    assert_eq!(record.body_html, "<p>x</p>");
    assert_eq!(
        action,
        Action::FetchList {
            page: 2,
            per_page: 1
        }
    );
}

#[test]
fn cancellation_during_content_fetch_stops_outer_loop() {
    let mut f = DevToFetcher::from_config(2).unwrap();
    f.on_list_fetch(FetchOutcome::Success);
    f.on_list_decode(ListDecodeOutcome::Decoded(vec![
        preview(1, "a", "da"),
        preview(2, "b", "db"),
    ]));
    let action = f.on_content_fetch(FetchOutcome::Cancelled);
    assert_eq!(f.stage, Stage::Stopped);
    assert_eq!(action, Action::Stop);
}

#[test]
fn merge_takes_every_field_from_its_source() {
    let merged = Article::merge(preview(9, "t", "d"), content("<b>b</b>"));
    assert_eq!(merged.id, 9);
    assert_eq!(merged.title, "t");
    assert_eq!(merged.description, "d");
    assert_eq!(merged.body_html, "<b>b</b>");
}

#[test]
fn two_items_one_failure_emits_one_and_proceeds() {
    // Page size 2, page 1 lists ids 1 and 2; content for id 1 succeeds,
    // content for id 2 fails at the transport: exactly one record comes
    // out and the loop proceeds to page 2.
    let mut f = DevToFetcher::from_config(2).unwrap();
    f.on_list_fetch(FetchOutcome::Success);
    f.on_list_decode(ListDecodeOutcome::Decoded(vec![
        preview(1, "a", "da"),
        preview(2, "b", "db"),
    ]));
    let (emitted, action) = f.resolve_items(vec![
        ItemOutcome::Content(content("<p>1</p>")),
        ItemOutcome::TransportFailure,
    ]);
    assert_eq!(emitted.len(), 1);
    assert_eq!(emitted[0].id, 1);
    assert_eq!(emitted[0].body_html, "<p>1</p>");
    assert_eq!(f.stage, Stage::FetchingList);
    assert_eq!(
        action,
        Action::FetchList {
            page: 2,
            per_page: 2
        }
    );
}

#[test]
fn cancellation_before_any_request_emits_nothing() {
    // The signal was already set when the loop first looked: the very
    // first race is lost to cancellation and zero records are emitted.
    let mut f = DevToFetcher::from_config(30).unwrap();
    let action = f.on_list_fetch(FetchOutcome::Cancelled);
    assert_eq!(f.stage, Stage::Stopped);
    assert_eq!(action, Action::Stop);
    assert_eq!(f.pending.len(), 0);
}

#[test]
fn cancellation_during_second_item_keeps_first_record_only() {
    // Two items; the first resolves and is emitted, cancellation wins the
    // race while the second is in flight: the loop stops at once, the
    // second record never exists, and no further fetch is demanded.
    let mut f = DevToFetcher::from_config(2).unwrap();
    f.on_list_fetch(FetchOutcome::Success);
    f.on_list_decode(ListDecodeOutcome::Decoded(vec![
        preview(1, "a", "da"),
        preview(2, "b", "db"),
    ]));
    let (emitted, action) = f.resolve_items(vec![
        ItemOutcome::Content(content("<p>1</p>")),
        ItemOutcome::Cancelled,
    ]);
    assert_eq!(emitted.len(), 1);
    assert_eq!(emitted[0].id, 1);
    assert_eq!(f.stage, Stage::Stopped);
    assert_eq!(action, Action::Stop);
}

#[test]
fn all_items_failing_emits_nothing_but_loop_goes_on() {
    let mut f = DevToFetcher::from_config(2).unwrap();
    f.on_list_fetch(FetchOutcome::Success);
    f.on_list_decode(ListDecodeOutcome::Decoded(vec![
        preview(1, "a", "da"),
        preview(2, "b", "db"),
    ]));
    let (emitted, action) = f.resolve_items(vec![
        ItemOutcome::TransportFailure,
        ItemOutcome::DecodeFailure,
    ]);
    assert_eq!(emitted.len(), 0);
    assert_eq!(f.stage, Stage::FetchingList);
    assert_eq!(
        action,
        Action::FetchList {
            page: 2,
            per_page: 2
        }
    );
}

#[test]
fn emission_order_follows_response_order() {
    let mut f = DevToFetcher::from_config(3).unwrap();
    f.on_list_fetch(FetchOutcome::Success);
    f.on_list_decode(ListDecodeOutcome::Decoded(vec![
        preview(5, "a", "da"),
        preview(3, "b", "db"),
        preview(8, "c", "dc"),
    ]));
    let (emitted, _) = f.resolve_items(vec![
        ItemOutcome::Content(content("<p>5</p>")),
        ItemOutcome::Content(content("<p>3</p>")),
        ItemOutcome::Content(content("<p>8</p>")),
    ]);
    let ids: Vec<u128> = emitted.iter().map(|a| a.id).collect();
    assert_eq!(ids, vec![5, 3, 8]);
}

#[test]
fn records_accumulate_across_pages() {
    let mut f = DevToFetcher::from_config(2).unwrap();
    let (emitted, action) = f.run_pages(vec![
        PageEvent::Page(
            vec![preview(1, "a", "da"), preview(2, "b", "db")],
            vec![
                ItemOutcome::Content(content("<p>1</p>")),
                ItemOutcome::Content(content("<p>2</p>")),
            ],
        ),
        PageEvent::ListTransportFailure,
        PageEvent::Page(
            vec![preview(3, "c", "dc")],
            vec![ItemOutcome::Content(content("<p>3</p>"))],
        ),
    ]);
    let ids: Vec<u128> = emitted.iter().map(|a| a.id).collect();
    assert_eq!(ids, vec![1, 2, 3]);
    // Two list successes and one transport failure: the page number moved
    // twice, never on the failure.
    assert_eq!(f.page, 3);
    assert_eq!(f.stage, Stage::FetchingList);
    assert_eq!(
        action,
        Action::FetchList {
            page: 3,
            per_page: 2
        }
    );
}

#[test]
fn page_skipped_on_decode_failure_still_advances() {
    let mut f = DevToFetcher::from_config(1).unwrap();
    let (emitted, _) = f.run_pages(vec![
        PageEvent::DecodeFailure,
        PageEvent::Page(
            vec![preview(4, "d", "dd")],
            vec![ItemOutcome::Content(content("<p>4</p>"))],
        ),
    ]);
    assert_eq!(emitted.len(), 1);
    assert_eq!(emitted[0].id, 4);
    assert_eq!(f.page, 3);
}

#[test]
fn cancellation_mid_script_stops_and_emits_nothing_further() {
    let mut f = DevToFetcher::from_config(1).unwrap();
    let (emitted, action) = f.run_pages(vec![
        PageEvent::Page(
            vec![preview(1, "a", "da")],
            vec![ItemOutcome::Content(content("<p>1</p>"))],
        ),
        PageEvent::ListCancelled,
        PageEvent::Page(
            vec![preview(2, "b", "db")],
            vec![ItemOutcome::Content(content("<p>2</p>"))],
        ),
    ]);
    // Only the page resolved before cancellation contributes a record.
    assert_eq!(emitted.len(), 1);
    assert_eq!(emitted[0].id, 1);
    assert_eq!(f.stage, Stage::Stopped);
    assert_eq!(action, Action::Stop);
}

#[test]
fn empty_pages_emit_nothing_and_loop_goes_on() {
    let mut f = DevToFetcher::from_config(5).unwrap();
    let (emitted, action) = f.run_pages(vec![
        PageEvent::Page(Vec::new(), Vec::new()),
        PageEvent::Page(Vec::new(), Vec::new()),
    ]);
    assert_eq!(emitted.len(), 0);
    assert_eq!(f.page, 3);
    assert_eq!(
        action,
        Action::FetchList {
            page: 3,
            per_page: 5
        }
    );
}

#[test]
fn shutdown_is_not_an_error_class() {
    assert!(Error::Shutdown.is_shutdown());
    assert!(!Error::Parse("bad".to_string()).is_shutdown());
    assert!(!Error::FailedScrape("bad".to_string()).is_shutdown());
    assert!(!Error::Invalid("bad".to_string()).is_shutdown());
}
