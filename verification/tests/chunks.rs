use escaper::chunk::{
    asset_requests, chunk_dir_name, meta_path, root_dir, search_filter, ChunkEnd, Crawl, Metadata,
    PlanError,
};
use escaper::post::{
    keep_retrieved, normalize_all, RawPost, RawPostFile, ScrapedPost, ScrapedPostFileExtension,
    ScrapedPostRating, ScrapedPostRelationships, ScrapedPostScore, ScrapedPostTags, TransformError,
};
use escaper::stamp::Timestamp;
use escaper::text::{decimal_string, push_decimal};

fn raw(id: u64, ext: &str, rating: &str, url: Option<&str>) -> RawPost {
    RawPost {
        id,
        created_at: Timestamp { secs: 1_600_000_000, nanos: 5 },
        updated_at: Some(Timestamp { secs: 1_600_000_100, nanos: 0 }),
        file: RawPostFile {
            width: 640,
            height: 480,
            ext: ext.to_string(),
            size: 12345,
            md5: "d41d8cd98f00b204e9800998ecf8427e".to_string(),
            url: url.map(|u| u.to_string()),
        },
        score: ScrapedPostScore { up: 7, down: -2, total: 5 },
        tags: ScrapedPostTags {
            general: vec!["a".to_string(), "b".to_string()],
            species: vec!["c".to_string()],
            character: vec![],
            artist: vec!["d".to_string()],
            invalid: vec![],
            lore: vec![],
            meta: vec!["e".to_string()],
        },
        locked_tags: vec!["locked".to_string()],
        rating: rating.to_string(),
        fav_count: 3,
        sources: vec!["https://example.org/src".to_string()],
        pools: vec![11, 12],
        relationships: ScrapedPostRelationships {
            parent_id: Some(4),
            has_children: true,
            children: vec![8, 9],
        },
        approver_id: None,
        uploader_id: 77,
        description: "text".to_string(),
        comment_count: 2,
    }
}

fn post(id: u64, url: Option<&str>) -> ScrapedPost {
    ScrapedPost::from_raw(raw(id, "png", "s", url)).unwrap()
}

fn batch_1000_to_991(without_url: Option<u64>) -> Vec<ScrapedPost> {
    let mut posts = Vec::new();
    let mut id = 1000u64;
    while id >= 991 {
        if Some(id) == without_url {
            posts.push(post(id, None));
        } else {
            let url = format!("https://static.example.org/{}.png", id);
            posts.push(post(id, Some(url.as_str())));
        }
        id -= 1;
    }
    posts
}

const START: Timestamp = Timestamp { secs: 1_431_648_000, nanos: 0 };

#[test]
fn decimal_of_small_and_large_numbers() {
    assert_eq!(decimal_string(0), "0");
    assert_eq!(decimal_string(7), "7");
    assert_eq!(decimal_string(10), "10");
    assert_eq!(decimal_string(1000), "1000");
    assert_eq!(decimal_string(990), "990");
    assert_eq!(decimal_string(u64::MAX), "18446744073709551615");
    assert_eq!(decimal_string(1234567890), 1234567890u64.to_string());
}

#[test]
fn push_decimal_appends() {
    let mut s = String::from("id=");
    push_decimal(&mut s, 405);
    assert_eq!(s, "id=405");
}

#[test]
fn names_follow_the_layout() {
    assert_eq!(root_dir(), "chunks");
    assert_eq!(
        chunk_dir_name("2015;05;15-00;00;00", 1000, 990),
        "chunks/chunk_2015;05;15-00;00;00_1000-990"
    );
    assert_eq!(search_filter(1000), "id:<=1000");
    assert_eq!(search_filter(0), "id:<=0");
    assert_eq!(meta_path("chunks/chunk_x_5-0"), "chunks/chunk_x_5-0/meta.json");
}

#[test]
fn folder_stamp_is_the_calendar_text() {
    assert_eq!(START.folder_stamp(), Some("2015;05;15-00;00;00".to_string()));
    let t = Timestamp { secs: 1_600_000_000, nanos: 999_999_999 };
    assert_eq!(t.folder_stamp(), Some("2020;09;13-12;26;40".to_string()));
    assert_eq!(Timestamp { secs: 0, nanos: 0 }.folder_stamp(), Some("1970;01;01-00;00;00".to_string()));
}

#[test]
fn folder_stamp_outside_the_calendar() {
    assert_eq!(Timestamp { secs: i64::MAX, nanos: 0 }.folder_stamp(), None);
    assert_eq!(Timestamp { secs: 0, nanos: 2_000_000_000 }.folder_stamp(), None);
}

#[test]
fn one_chunk_of_ten_with_all_files() {
    let mut crawl = Crawl::new(1000, 1, 10);
    let plan = crawl.plan(START).unwrap();
    assert_eq!(plan.start_id, 1000);
    assert_eq!(plan.end_id, 990);
    assert_eq!(plan.take, 10);
    assert_eq!(plan.filter, "id:<=1000");
    assert_eq!(plan.dir, "chunks/chunk_2015;05;15-00;00;00_1000-990");

    let posts = batch_1000_to_991(None);
    let requests = asset_requests(&posts, plan.dir.as_str());
    assert_eq!(requests.len(), 10);
    for (i, r) in requests.iter().enumerate() {
        let id = 1000 - i as u64;
        let r = r.as_ref().unwrap();
        assert_eq!(r.url, format!("https://static.example.org/{}.png", id));
        assert_eq!(r.path, format!("chunks/chunk_2015;05;15-00;00;00_1000-990/{}.png", id));
    }

    crawl.finish(ChunkEnd::Processed);
    assert_eq!(crawl.cursor, 990);
    assert!(crawl.is_done());

    let finish = Timestamp { secs: START.secs + 3, nanos: 1 };
    let meta = Metadata::assemble(&plan, finish, posts.clone());
    assert_eq!(meta.start_time, START);
    assert_eq!(meta.finish_time, finish);
    assert_eq!(meta.start_id, 1000);
    assert_eq!(meta.end_id, 990);
    assert_eq!(meta.posts.len(), 10);
    assert_eq!(meta.posts, posts);
    assert_eq!(meta_path(plan.dir.as_str()), "chunks/chunk_2015;05;15-00;00;00_1000-990/meta.json");
}

#[test]
fn a_post_without_url_is_kept_and_not_fetched() {
    let crawl = Crawl::new(1000, 1, 10);
    let plan = crawl.plan(START).unwrap();
    let posts = batch_1000_to_991(Some(995));
    let requests = asset_requests(&posts, plan.dir.as_str());
    assert_eq!(requests.len(), 10);
    for (i, r) in requests.iter().enumerate() {
        let id = 1000 - i as u64;
        assert_eq!(r.is_none(), id == 995);
    }
    let meta = Metadata::assemble(&plan, START, posts);
    assert_eq!(meta.posts.len(), 10);
    let kept = meta.posts.iter().find(|p| p.id == 995).unwrap();
    assert_eq!(kept.file.url, None);
}

#[test]
fn a_skipped_chunk_leaves_the_cursor() {
    let mut crawl = Crawl::new(1000, 2, 10);
    let first = crawl.plan(START).unwrap();
    crawl.finish(ChunkEnd::Skipped);
    assert_eq!(crawl.cursor, 1000);
    assert_eq!(crawl.remaining, 1);
    let second = crawl.plan(START).unwrap();
    assert_eq!(second.filter, "id:<=1000");
    assert_eq!(second.filter, first.filter);
    assert_eq!(second.start_id, 1000);
    assert_eq!(second.end_id, 990);
}

#[test]
fn three_chunks_of_five() {
    let mut crawl = Crawl::new(100, 3, 5);
    let mut ranges = Vec::new();
    while !crawl.is_done() {
        let plan = crawl.plan(START).unwrap();
        assert_eq!(plan.start_id - plan.end_id, 5);
        ranges.push((plan.start_id, plan.end_id));
        crawl.finish(ChunkEnd::Processed);
    }
    assert_eq!(ranges, vec![(100, 95), (95, 90), (90, 85)]);
    assert_eq!(crawl.cursor, 85);
    assert_eq!(crawl.plan(START), Err(PlanError::Finished));
}

#[test]
fn cursor_after_a_mixed_run() {
    let mut crawl = Crawl::new(1000, 5, 7);
    let ends = [
        ChunkEnd::Processed,
        ChunkEnd::Skipped,
        ChunkEnd::Processed,
        ChunkEnd::Processed,
        ChunkEnd::Skipped,
    ];
    for e in ends {
        crawl.finish(e);
    }
    assert_eq!(crawl.cursor, 1000 - 3 * 7);
    assert_eq!(crawl.remaining, 0);
    assert_eq!(crawl.chunk_size, 7);
    crawl.finish(ChunkEnd::Processed);
    assert_eq!(crawl.cursor, 1000 - 3 * 7);
}

#[test]
fn planning_errors() {
    assert_eq!(Crawl::new(10, 0, 5).plan(START), Err(PlanError::Finished));
    assert_eq!(Crawl::new(3, 1, 5).plan(START), Err(PlanError::Underflow));
    assert_eq!(Crawl::new(3, 0, 5).plan(START), Err(PlanError::Finished));
    let never = Timestamp { secs: i64::MAX, nanos: 0 };
    assert_eq!(Crawl::new(10, 1, 5).plan(never), Err(PlanError::NoCalendarTime));
    assert_eq!(Crawl::new(3, 1, 5).plan(never), Err(PlanError::Underflow));
    assert_eq!(Crawl::new(3, 1, 5).plan_with_stamp(START, "s"), Err(PlanError::Underflow));
    assert_eq!(Crawl::new(3, 0, 5).plan_with_stamp(START, "s"), Err(PlanError::Finished));
    let plan = Crawl::new(5, 1, 5).plan_with_stamp(START, "s").unwrap();
    assert_eq!((plan.start_id, plan.end_id), (5, 0));
    assert_eq!(plan.dir, "chunks/chunk_s_5-0");
}

#[test]
fn a_processed_chunk_without_room_changes_nothing() {
    let mut crawl = Crawl::new(3, 2, 5);
    crawl.finish(ChunkEnd::Processed);
    assert_eq!(crawl, Crawl::new(3, 2, 5));
}

#[test]
fn extension_codes() {
    let all = [
        (ScrapedPostFileExtension::Jpeg, "jpg"),
        (ScrapedPostFileExtension::Png, "png"),
        (ScrapedPostFileExtension::Gif, "gif"),
        (ScrapedPostFileExtension::Swf, "swf"),
        (ScrapedPostFileExtension::Webm, "webm"),
    ];
    for (e, code) in all {
        assert_eq!(e.code(), code);
        assert_eq!(e.to_string(), code);
        assert_eq!(ScrapedPostFileExtension::from_code(code), Some(e));
    }
    assert_eq!(ScrapedPostFileExtension::from_code("jpeg"), None);
    assert_eq!(ScrapedPostFileExtension::from_code("PNG"), None);
    assert_eq!(ScrapedPostFileExtension::from_code(""), None);
}

#[test]
fn rating_codes() {
    let all = [
        (ScrapedPostRating::Safe, "s"),
        (ScrapedPostRating::Questionable, "q"),
        (ScrapedPostRating::Explicit, "e"),
    ];
    for (r, code) in all {
        assert_eq!(r.code(), code);
        assert_eq!(ScrapedPostRating::from_code(code), Some(r));
    }
    assert_eq!(ScrapedPostRating::from_code("safe"), None);
    assert_eq!(ScrapedPostRating::from_code(""), None);
}

#[test]
fn transform_keeps_every_field() {
    let r = raw(42, "webm", "e", Some("https://static.example.org/42.webm"));
    let p = ScrapedPost::from_raw(r.clone()).unwrap();
    assert_eq!(p.id, 42);
    assert_eq!(p.created_at, r.created_at);
    assert_eq!(p.updated_at, r.updated_at);
    assert_eq!(p.file.width, 640);
    assert_eq!(p.file.height, 480);
    assert_eq!(p.file.extension, ScrapedPostFileExtension::Webm);
    assert_eq!(p.file.size, 12345);
    assert_eq!(p.file.md5, r.file.md5);
    assert_eq!(p.file.url, r.file.url);
    assert_eq!(p.score, r.score);
    assert_eq!(p.tags, r.tags);
    assert_eq!(p.locked_tags, r.locked_tags);
    assert_eq!(p.rating, ScrapedPostRating::Explicit);
    assert_eq!(p.fav_count, 3);
    assert_eq!(p.sources, r.sources);
    assert_eq!(p.pools, r.pools);
    assert_eq!(p.relationships, r.relationships);
    assert_eq!(p.approver_id, None);
    assert_eq!(p.uploader_id, 77);
    assert_eq!(p.description, "text");
    assert_eq!(p.comment_count, 2);
}

#[test]
fn transform_refuses_unknown_codes() {
    assert_eq!(ScrapedPost::from_raw(raw(1, "bmp", "s", None)), Err(TransformError::UnknownExtension));
    assert_eq!(ScrapedPost::from_raw(raw(1, "png", "x", None)), Err(TransformError::UnknownRating));
    assert_eq!(ScrapedPost::from_raw(raw(1, "bmp", "x", None)), Err(TransformError::UnknownExtension));
}

#[test]
fn asset_path_and_request() {
    let p = post(31, Some("https://static.example.org/a"));
    let r = p.asset_request("chunks/chunk_t_40-30").unwrap();
    assert_eq!(r.url, "https://static.example.org/a");
    assert_eq!(r.path, "chunks/chunk_t_40-30/31.png");
    let j = ScrapedPost::from_raw(raw(0, "jpg", "q", Some("u"))).unwrap();
    assert_eq!(j.asset_request("d").unwrap().path, "d/0.jpg");
    assert_eq!(post(31, None).asset_request("chunks/chunk_t_40-30"), None);
}

#[test]
fn unretrievable_items_fall_away() {
    let items: Vec<Result<RawPost, String>> = vec![
        Ok(raw(9, "png", "s", None)),
        Err("transport".to_string()),
        Ok(raw(7, "gif", "q", Some("u"))),
        Err("shape".to_string()),
    ];
    let kept = keep_retrieved(items);
    assert_eq!(kept.len(), 2);
    assert_eq!(kept[0], raw(9, "png", "s", None));
    assert_eq!(kept[1], raw(7, "gif", "q", Some("u")));
    let none: Vec<Result<RawPost, String>> = vec![];
    assert_eq!(keep_retrieved(none), vec![]);
}

#[test]
fn a_batch_is_normalized_in_order() {
    let raws = vec![raw(9, "png", "s", None), raw(8, "swf", "e", Some("u")), raw(8, "swf", "e", Some("u"))];
    let posts = normalize_all(raws.clone()).unwrap();
    assert_eq!(posts.len(), 3);
    for i in 0..3 {
        assert_eq!(Ok(posts[i].clone()), ScrapedPost::from_raw(raws[i].clone()));
    }
    assert_eq!(normalize_all(vec![]), Ok(vec![]));
    let bad = vec![raw(9, "png", "s", None), raw(8, "png", "?", None), raw(7, "tiff", "s", None)];
    assert_eq!(normalize_all(bad), Err(TransformError::UnknownRating));
}

#[test]
fn clock_times_always_have_a_stamp_of_nineteen_characters() {
    let edges = [
        (0i64, 0u32, "1970;01;01-00;00;00"),
        (0, 999_999_999, "1970;01;01-00;00;00"),
        (59, 0, "1970;01;01-00;00;59"),
        (951_782_400, 0, "2000;02;29-00;00;00"),
        (1_700_000_000, 123, "2023;11;14-22;13;20"),
        (253_402_300_799, 999_999_999, "9999;12;31-23;59;59"),
    ];
    for (secs, nanos, text) in edges {
        let stamp = Timestamp { secs, nanos }.folder_stamp().unwrap();
        assert_eq!(stamp.chars().count(), 19);
        assert_eq!(stamp, text);
        let plan = Crawl::new(20, 1, 10).plan(Timestamp { secs, nanos }).unwrap();
        assert_eq!(plan.dir, format!("chunks/chunk_{}_20-10", text));
    }
}

#[test]
fn times_beyond_the_clock_range_are_still_named() {
    let t = Timestamp { secs: 253_402_300_800, nanos: 0 };
    assert_eq!(t.folder_stamp(), Some("+10000;01;01-00;00;00".to_string()));
    let before = Timestamp { secs: -1, nanos: 0 };
    assert_eq!(before.folder_stamp(), Some("1969;12;31-23;59;59".to_string()));
    let leap = Timestamp { secs: 59, nanos: 1_500_000_000 };
    assert_eq!(leap.folder_stamp(), Some("1970;01;01-00;00;60".to_string()));
}

#[test]
fn a_record_written_with_codes_reads_back() {
    let kinds = [
        ScrapedPostFileExtension::Jpeg,
        ScrapedPostFileExtension::Png,
        ScrapedPostFileExtension::Gif,
        ScrapedPostFileExtension::Swf,
        ScrapedPostFileExtension::Webm,
    ];
    let ratings = [ScrapedPostRating::Safe, ScrapedPostRating::Questionable, ScrapedPostRating::Explicit];
    for kind in kinds {
        for rating in ratings {
            for url in [None, Some("https://static.example.org/f")] {
                let mut p = post(12, url);
                p.file.extension = kind;
                p.rating = rating;
                let written = RawPost {
                    id: p.id,
                    created_at: p.created_at,
                    updated_at: p.updated_at,
                    file: RawPostFile {
                        width: p.file.width,
                        height: p.file.height,
                        ext: p.file.extension.code().to_string(),
                        size: p.file.size,
                        md5: p.file.md5.clone(),
                        url: p.file.url.clone(),
                    },
                    score: p.score,
                    tags: p.tags.clone(),
                    locked_tags: p.locked_tags.clone(),
                    rating: p.rating.code().to_string(),
                    fav_count: p.fav_count,
                    sources: p.sources.clone(),
                    pools: p.pools.clone(),
                    relationships: p.relationships.clone(),
                    approver_id: p.approver_id,
                    uploader_id: p.uploader_id,
                    description: p.description.clone(),
                    comment_count: p.comment_count,
                };
                assert_eq!(ScrapedPost::from_raw(written), Ok(p));
            }
        }
    }
}
