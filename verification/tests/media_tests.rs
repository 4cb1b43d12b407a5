use api::instagram::{self, media_request, InstagramMediaData, MEDIA_FIELDS};
use api::media::{image_file_name, local_image_url, localize_image_urls, media_from_posts, Media, MediaType};
use api::{MediaCache, INSTAGRAM_GRAPH_ENDPOINT};

fn post(id: &str) -> InstagramMediaData {
    InstagramMediaData {
        id: id.to_string(),
        media_type: instagram::MediaType::Image,
        permalink: Some(format!("https://www.instagram.com/p/{id}/")),
        media_url: Some("https://cdn.example/full.jpg".to_string()),
        thumbnail_url: None,
        caption: Some("A caption".to_string()),
        alt_text: None,
        timestamp: "2024-01-01T00:00:00+0000".to_string(),
    }
}

#[test]
fn media_type_conversion() {
    assert_eq!(MediaType::from(instagram::MediaType::Carousel), MediaType::Gallery);
    assert_eq!(MediaType::from(instagram::MediaType::Reel), MediaType::Video);
    assert_eq!(MediaType::from(instagram::MediaType::Image), MediaType::Image);
}

#[test]
fn conversion_prefers_thumbnail_and_alt_text() {
    let mut p = post("1");
    p.thumbnail_url = Some("https://cdn.example/thumb.jpg".to_string());
    p.alt_text = Some("Alt".to_string());
    p.media_type = instagram::MediaType::Reel;
    let m = Media::from_instagram(p);
    assert_eq!(m.image_url, "https://cdn.example/thumb.jpg");
    assert_eq!(m.alt_text, "Alt");
    assert_eq!(m.caption, "A caption");
    assert_eq!(m.media_type, MediaType::Video);
    assert_eq!(m.permalink.as_deref(), Some("https://www.instagram.com/p/1/"));
}

#[test]
fn conversion_falls_back_to_media_and_caption() {
    let m = Media::from_instagram(post("2"));
    assert_eq!(m.id, "2");
    assert_eq!(m.image_url, "https://cdn.example/full.jpg");
    assert_eq!(m.alt_text, "A caption");
    assert_eq!(m.caption, "A caption");
    assert_eq!(m.timestamp, "2024-01-01T00:00:00+0000");
}

#[test]
fn missing_caption_becomes_empty() {
    let mut p = post("3");
    p.caption = None;
    p.alt_text = Some("Alt".to_string());
    let m = Media::from_instagram(p);
    assert_eq!(m.caption, "");
    assert_eq!(m.alt_text, "Alt");
}

#[test]
fn posts_convert_in_order() {
    let media = media_from_posts(vec![post("a"), post("b"), post("c")]);
    let ids: Vec<&str> = media.iter().map(|m| m.id.as_str()).collect();
    assert_eq!(ids, vec!["a", "b", "c"]);
    assert!(media_from_posts(Vec::new()).is_empty());
}

#[test]
fn image_file_name_is_hashed_id_and_extension() {
    assert_eq!(
        image_file_name("abc", "https://cdn.example/p/img.jpg?stp=1&x=y.z"),
        "ba7816bf8f01cfea414140de5dae2223.jpg"
    );
    assert_eq!(
        image_file_name("17841400000000000", "https://cdn.example/video.mp4"),
        "13494aa6031fc462a8a65b8893d927e0.mp4"
    );
}

#[test]
fn image_extension_edge_cases() {
    // no dot in the part before '?': the whole part is the extension
    assert_eq!(image_file_name("abc", "noext?a.b"), "ba7816bf8f01cfea414140de5dae2223.noext");
    // a dot only in the host name
    assert_eq!(image_file_name("abc", "https://cdn.example/img"), "ba7816bf8f01cfea414140de5dae2223.example/img");
    // empty address
    assert_eq!(image_file_name("abc", ""), "ba7816bf8f01cfea414140de5dae2223.");
    // trailing dot
    assert_eq!(image_file_name("abc", "a.b."), "ba7816bf8f01cfea414140de5dae2223.");
}

#[test]
fn local_urls_point_into_media() {
    assert_eq!(local_image_url("x.jpg"), "media/x.jpg");
    let mut media = media_from_posts(vec![post("abc")]);
    let before = media[0].clone();
    localize_image_urls(&mut media);
    assert_eq!(media[0].image_url, "media/ba7816bf8f01cfea414140de5dae2223.jpg");
    assert_eq!(media[0].id, before.id);
    assert_eq!(media[0].caption, before.caption);
    assert_eq!(media[0].alt_text, before.alt_text);
    assert_eq!(media[0].permalink, before.permalink);
    assert_eq!(media[0].timestamp, before.timestamp);
}

#[test]
fn media_request_lists_twelve_posts() {
    let req = media_request("TOKEN");
    assert_eq!(req.url, format!("{INSTAGRAM_GRAPH_ENDPOINT}/me/media"));
    assert_eq!(req.url, "https://graph.instagram.com/v25.0/me/media");
    assert_eq!(
        req.query,
        vec![
            ("fields".to_string(), MEDIA_FIELDS.to_string()),
            ("limit".to_string(), "12".to_string()),
            ("access_token".to_string(), "TOKEN".to_string()),
        ]
    );
    assert_eq!(MEDIA_FIELDS, "caption,media_type,media_url,permalink,thumbnail_url,timestamp,alt_text");
}

#[test]
fn failed_refresh_keeps_the_cache() {
    let mut cache = MediaCache::new();
    assert!(cache.snapshot().is_empty());
    assert!(cache.apply_refresh::<String>(Ok(media_from_posts(vec![post("1"), post("2")]))).is_none());
    assert_eq!(cache.snapshot().len(), 2);
    let failure = cache.apply_refresh(Err("network down".to_string()));
    assert_eq!(failure.as_deref(), Some("network down"));
    let served = cache.snapshot();
    assert_eq!(served.len(), 2);
    assert_eq!(served[0].id, "1");
    assert_eq!(served[1].id, "2");
    assert!(cache.apply_refresh::<String>(Ok(Vec::new())).is_none());
    assert!(cache.snapshot().is_empty());
}

#[test]
fn image_file_name_from_a_given_digest() {
    let digest: Vec<u8> = (0u8..32).map(|b| b.wrapping_mul(17)).collect();
    assert_eq!(
        api::media::image_file_name_from_digest(&digest, "https://x/y.webp?z"),
        "00112233445566778899aabbccddeeff.webp"
    );
    assert_eq!(
        api::media::image_file_name_from_digest(&[0xab; 16], "p.png"),
        "abababababababababababababababab.png"
    );
}

#[test]
fn image_file_names_stay_in_the_media_directory() {
    for url in ["https://x/a.b/../../etc", "../../x", "https://cdn/a.jpg?../..", "/abs", ""] {
        let name = image_file_name("some-id", url);
        assert!(name.len() >= 33);
        assert!(name[..32].chars().all(|c| c.is_ascii_digit() || ('a'..='f').contains(&c)));
        assert_eq!(&name[32..33], ".");
        assert!(!name[33..].contains('.'));
        for part in name.split('/') {
            assert!(part != "." && part != "..");
        }
    }
}
