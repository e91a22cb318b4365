use douyin_dl::errors::ResolveError;
use douyin_dl::resolve::{assemble_link, extract_aweme_id, replace_bytes, resolve_link, rewrite_video_url};

#[test]
fn id_is_the_digits_between_slash_and_question_mark() {
    let url = b"https://www.iesdouyin.com/share/video/7094619797?region=CN".to_vec();
    assert_eq!(extract_aweme_id(&url), b"7094619797".to_vec());
}

#[test]
fn id_of_a_link_without_the_pattern_is_empty() {
    let url = b"https://www.iesdouyin.com/share/video/abc/".to_vec();
    assert_eq!(extract_aweme_id(&url), Vec::<u8>::new());
}

#[test]
fn id_comes_from_the_leftmost_pattern() {
    let url = b"http://h/12?x=/345?y".to_vec();
    assert_eq!(extract_aweme_id(&url), b"12".to_vec());
}

#[test]
fn id_needs_at_least_one_digit() {
    assert_eq!(extract_aweme_id(&b"http://h/?x".to_vec()), Vec::<u8>::new());
    assert_eq!(extract_aweme_id(&b"http://h/12a?x".to_vec()), Vec::<u8>::new());
}

#[test]
fn id_pattern_needs_the_question_mark() {
    assert_eq!(extract_aweme_id(&b"http://h/123".to_vec()), Vec::<u8>::new());
}

#[test]
fn replace_swaps_every_occurrence_left_to_right() {
    let out = replace_bytes(&b"xabyab".to_vec(), &b"ab".to_vec(), &b"Z".to_vec());
    assert_eq!(out, b"xZyZ".to_vec());
}

#[test]
fn replace_without_occurrence_changes_nothing() {
    let out = replace_bytes(&b"hello".to_vec(), &b"xyz".to_vec(), &b"Z".to_vec());
    assert_eq!(out, b"hello".to_vec());
}

#[test]
fn replace_does_not_rescan_replacements() {
    let out = replace_bytes(&b"aaa".to_vec(), &b"aa".to_vec(), &b"a".to_vec());
    assert_eq!(out, b"aa".to_vec());
}

#[test]
fn video_url_loses_watermark_and_gains_resolution() {
    let url = b"https://api.x.com/playwm/?video_id=1&ratio=720p".to_vec();
    assert_eq!(
        rewrite_video_url(&url),
        b"https://api.x.com/play/?video_id=1&ratio=1080p".to_vec()
    );
}

#[test]
fn resolving_reads_the_three_urls_out_of_the_metadata() {
    let real_url = b"https://www.iesdouyin.com/share/video/7094619797?region=CN".to_vec();
    let api_body = "{\"item_list\":[{\"video\":{\"play_addr\":{\"url_list\":[\"https://v.x/playwm/?id=1&ratio=720p\"]},\"origin_cover\":{\"url_list\":[\"https://p.x/cover.jpeg\"]}},\"music\":{\"play_url\":{\"url_list\":[\"https://m.x/track.m4a\"]}}}]}";
    let link = resolve_link(&real_url, api_body).unwrap();
    assert_eq!(link.aweme_id, b"7094619797".to_vec());
    assert_eq!(link.video_url, b"https://v.x/play/?id=1&ratio=1080p".to_vec());
    assert_eq!(link.cover_url, b"https://p.x/cover.jpeg".to_vec());
    assert_eq!(link.music_url, b"https://m.x/track.m4a".to_vec());
}

#[test]
fn resolving_rejects_text_that_is_not_json() {
    let real_url = b"https://v.douyin.com/abc/".to_vec();
    let r = resolve_link(&real_url, "not json at all {{");
    assert_eq!(r.err(), Some(ResolveError::MetadataUnparseable));
}

#[test]
fn assembling_rewrites_video_and_keeps_the_rest_verbatim() {
    let link = assemble_link(
        b"7094619797".to_vec(),
        &b"https://v.x/playwm/?id=1&ratio=720p".to_vec(),
        b"https://p.x/cover.jpeg".to_vec(),
        b"https://m.x/track.m4a".to_vec(),
    );
    assert_eq!(link.aweme_id, b"7094619797".to_vec());
    assert_eq!(link.video_url, b"https://v.x/play/?id=1&ratio=1080p".to_vec());
    assert_eq!(link.cover_url, b"https://p.x/cover.jpeg".to_vec());
    assert_eq!(link.music_url, b"https://m.x/track.m4a".to_vec());
}
