use api::tile::{
    cache_control_for, cache_is_fresh, is_success_status, parse_tile_request, relay_status,
    tile_content_type, TileError, MAX_ZOOM, TILE_CACHE_TTL_SECS,
};

#[test]
fn accepts_a_tile_on_the_grid() {
    let req = parse_tile_request("b", 3, 7, "5.png").unwrap();
    assert_eq!(req.subdomain, "b");
    assert_eq!(req.zoom, 3);
    assert_eq!(req.x, 7);
    assert_eq!(req.row, "5.png");
}

#[test]
fn refuses_unknown_subdomain() {
    for s in ["d", "", "ab", "A", "a/"] {
        assert_eq!(parse_tile_request(s, 1, 0, "0.png").unwrap_err(), TileError::InvalidSubdomain);
    }
}

#[test]
fn subdomain_is_checked_before_zoom() {
    assert_eq!(parse_tile_request("x", 25, 0, "0.png").unwrap_err(), TileError::InvalidSubdomain);
}

#[test]
fn refuses_zoom_above_nineteen() {
    assert_eq!(parse_tile_request("a", 20, 0, "0.png").unwrap_err(), TileError::InvalidZoom);
    assert_eq!(parse_tile_request("a", u32::MAX, 0, "0.png").unwrap_err(), TileError::InvalidZoom);
    assert!(parse_tile_request("a", MAX_ZOOM, 524287, "524287.png").is_ok());
}

#[test]
fn refuses_column_outside_the_grid() {
    assert_eq!(parse_tile_request("c", 0, 1, "0.png").unwrap_err(), TileError::InvalidCoordinate);
    assert_eq!(parse_tile_request("c", 2, 4, "0.png").unwrap_err(), TileError::InvalidCoordinate);
    assert!(parse_tile_request("c", 2, 3, "0.png").is_ok());
}

#[test]
fn refuses_row_outside_the_grid() {
    assert_eq!(parse_tile_request("a", 2, 0, "4.png").unwrap_err(), TileError::InvalidCoordinate);
    assert!(parse_tile_request("a", 2, 0, "3.png").is_ok());
    assert_eq!(
        parse_tile_request("a", 19, 0, "99999999999999999999.png").unwrap_err(),
        TileError::InvalidCoordinate
    );
}

#[test]
fn refuses_row_names_that_are_not_digits_png() {
    for y in [".png", "1.jpg", "1.PNG", "-1.png", "+1.png", "1a.png", "../1.png", "1", "png", "1.png.png", " 1.png"] {
        assert_eq!(parse_tile_request("a", 5, 0, y).unwrap_err(), TileError::InvalidCoordinate, "{y}");
    }
}

#[test]
fn leading_zeros_are_accepted_and_kept() {
    let req = parse_tile_request("a", 4, 0, "007.png").unwrap();
    assert_eq!(req.row, "007.png");
    assert_eq!(req.cache_path(), "./tile-cache/a/4/0/007.png");
}

#[test]
fn error_messages_and_status() {
    assert_eq!(TileError::InvalidSubdomain.message(), "Invalid tile subdomain");
    assert_eq!(TileError::InvalidZoom.message(), "Invalid zoom level");
    assert_eq!(TileError::InvalidCoordinate.message(), "Invalid tile coordinate");
    assert_eq!(TileError::InvalidZoom.status(), 400);
}

#[test]
fn cache_path_and_upstream_url() {
    let req = parse_tile_request("c", 19, 305419, "1024.png").unwrap();
    assert_eq!(req.cache_path(), "./tile-cache/c/19/305419/1024.png");
    assert_eq!(req.upstream_url(), "https://c.tile.openstreetmap.org/19/305419/1024.png");
    let zero = parse_tile_request("a", 0, 0, "0.png").unwrap();
    assert_eq!(zero.cache_path(), "./tile-cache/a/0/0/0.png");
}

#[test]
fn accepted_paths_have_plain_components() {
    for (s, z, x, y) in [("a", 0u32, 0u32, "0.png"), ("b", 10, 1023, "1000.png"), ("c", 19, 1, "00.png")] {
        let path = parse_tile_request(s, z, x, y).unwrap().cache_path();
        let rest = path.strip_prefix("./tile-cache/").unwrap();
        let parts: Vec<&str> = rest.split('/').collect();
        assert_eq!(parts.len(), 4);
        for p in parts {
            assert!(!p.is_empty() && p != "." && p != "..");
        }
        assert!(path.ends_with(".png"));
    }
}

#[test]
fn cache_freshness_is_thirty_days() {
    assert_eq!(TILE_CACHE_TTL_SECS, 2_592_000);
    assert!(cache_is_fresh(0));
    assert!(cache_is_fresh(2_591_999));
    assert!(!cache_is_fresh(2_592_000));
}

#[test]
fn status_handling() {
    assert!(is_success_status(200));
    assert!(is_success_status(299));
    assert!(!is_success_status(304));
    assert!(!is_success_status(199));
    assert_eq!(relay_status(404), 404);
    assert_eq!(relay_status(100), 100);
    assert_eq!(relay_status(99), 502);
    assert_eq!(relay_status(1000), 502);
}

#[test]
fn cache_control_depends_on_success() {
    assert_eq!(cache_control_for(200), "public, max-age=31536000");
    assert_eq!(cache_control_for(204), "public, max-age=31536000");
    assert_eq!(cache_control_for(404), "no-store");
    assert_eq!(cache_control_for(502), "no-store");
}

#[test]
fn content_type_defaults_to_png() {
    assert_eq!(tile_content_type(None), "image/png");
    assert_eq!(tile_content_type(Some("image/webp".to_string())), "image/webp");
}
