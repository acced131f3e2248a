use peer_web::models::advertisement::{
    advertisement_is_active, ends_after, AdvertisementSort, AdvertisementType,
};
use peer_web::models::common::{ApiError, ApiStatus, DefaultResponse};
use peer_web::models::post::{
    is_valid_tag, ContentType, CreateContentType, CreatePostInput, FeedItem, MediaFile, Post,
    PostFilterType, PostSortType, PostUser, Tag, TagSearchResponse,
};
use peer_web::models::settings::UserPreferencesUpdateResponse;
use peer_web::models::shop::{
    validate_delivery_form, DeliveryFormData, PerformShopOrderResponse, ShopProduct,
};
use peer_web::models::user::{RegisterResponse, RegistrationInput};

fn meta(status: &str, code: &str) -> DefaultResponse {
    DefaultResponse {
        status: status.to_string(),
        request_id: "req".to_string(),
        response_code: code.to_string(),
        response_message: String::new(),
    }
}

fn post(id: &str) -> Post {
    Post {
        id: id.to_string(),
        contenttype: ContentType::Text,
        title: "t".to_string(),
        media: None,
        cover: None,
        mediadescription: None,
        createdat: String::new(),
        amountlikes: 0,
        amountviews: 0,
        amountcomments: 0,
        amountdislikes: 0,
        amounttrending: None,
        isliked: false,
        isviewed: false,
        isdisliked: false,
        issaved: false,
        isreported: false,
        tags: None,
        has_active_reports: None,
        visibility_status: None,
        is_hidden_for_users: None,
        user: PostUser {
            id: String::new(),
            username: String::new(),
            slug: String::new(),
            img: None,
            isfollowed: false,
            isfollowing: false,
            isfriend: false,
        },
    }
}

#[test]
fn api_error_messages() {
    let e = ApiError::from_code("30601", "taken");
    assert_eq!(e.message(), "API error (30601): taken");
    assert_eq!(ApiError::Network("down".to_string()).message(), "Network error: down");
    assert_eq!(ApiError::GraphQL("bad".to_string()).message(), "GraphQL error: bad");
    assert_eq!(
        ApiError::Deserialization("eof".to_string()).message(),
        "Deserialization error: eof"
    );
    assert_eq!(ApiError::Unexpected("x".to_string()).message(), "Unexpected error: x");
    assert_eq!(ApiStatus::default(), ApiStatus::Unknown);
}

#[test]
fn graphql_names() {
    assert_eq!(ContentType::Image.as_str(), "IMAGE");
    assert_eq!(PostFilterType::Followed.as_str(), "FOLLOWED");
    assert_eq!(PostSortType::ForMe.as_str(), "FOR_ME");
    assert_eq!(PostSortType::default(), PostSortType::Newest);
    assert_eq!(AdvertisementType::Pinned.as_str(), "PINNED");
    assert_eq!(AdvertisementSort::BiggestCost.as_str(), "BIGGEST_COST");
    assert_eq!(CreateContentType::Audio.as_str(), "audio");
    assert_eq!(CreateContentType::Image.display_name(), "Image Post");
    assert_eq!(CreateContentType::Video.icon_class(), "peer-icon-video");
    assert_eq!(CreateContentType::Image.max_media(), 5);
    assert_eq!(CreateContentType::Video.max_media(), 2);
    assert!(!CreateContentType::Text.requires_media());
    assert!(CreateContentType::Audio.requires_media());
}

fn input(title: &str) -> CreatePostInput {
    CreatePostInput {
        title: title.to_string(),
        mediadescription: None,
        contenttype: CreateContentType::Text,
        media: None,
        cover: None,
        tags: None,
        uploaded_files: None,
    }
}

#[test]
fn post_input_rules() {
    assert_eq!(input("").validate(), Err("Title is required".to_string()));
    assert_eq!(input(&"a".repeat(64)).validate(), Err("Title must be 63 characters or less".to_string()));
    assert_eq!(input(&"a".repeat(63)).validate(), Ok(()));
    let mut i = input("ok");
    i.mediadescription = Some("d".repeat(501));
    assert_eq!(i.validate(), Err("Description must be 500 characters or less".to_string()));
    let mut i = input("ok");
    i.tags = Some((0..11).map(|n| format!("tag{}", n)).collect());
    assert_eq!(i.validate(), Err("Maximum 10 tags allowed".to_string()));
    let mut i = input("ok");
    i.tags = Some(vec!["good_tag".to_string(), "bad tag".to_string(), "x".to_string()]);
    assert_eq!(i.validate(), Err("Invalid tag format: bad tag".to_string()));
    let mut i = input("ok");
    i.tags = Some(vec!["good_tag".to_string(), "Rust2024".to_string()]);
    assert_eq!(i.validate(), Ok(()));
}

#[test]
fn title_and_description_lengths_count_characters() {
    assert_eq!(input(&"é".repeat(40)).validate(), Ok(()));
    assert_eq!(input(&"é".repeat(63)).validate(), Ok(()));
    assert_eq!(input(&"é".repeat(64)).validate(), Err("Title must be 63 characters or less".to_string()));
    let mut i = input("ok");
    i.mediadescription = Some("ü".repeat(500));
    assert_eq!(i.validate(), Ok(()));
    i.mediadescription = Some("ü".repeat(501));
    assert_eq!(i.validate(), Err("Description must be 500 characters or less".to_string()));
}

#[test]
fn tag_format() {
    assert!(is_valid_tag("ab"));
    assert!(is_valid_tag("snake_case_9"));
    assert!(!is_valid_tag("a"));
    assert!(!is_valid_tag(&"a".repeat(54)));
    assert!(is_valid_tag(&"a".repeat(53)));
    assert!(!is_valid_tag("has-dash"));
    assert!(!is_valid_tag("ümlaut"));
}

#[test]
fn feed_items() {
    let p = FeedItem::Post(post("p1"));
    assert!(!p.is_ad());
    assert_eq!(p.id(), "p1");
    let ad = FeedItem::Ad {
        post: post("p2"),
        ad_info: peer_web::models::post::AdvertisementInfo {
            advertisementid: "ad".to_string(),
            advertisementtype: "PINNED".to_string(),
            startdate: String::new(),
            enddate: String::new(),
        },
    };
    assert!(ad.is_ad());
    assert_eq!(ad.post().id, "p2");
}

#[test]
fn tag_search_names() {
    let r = TagSearchResponse {
        meta: meta("success", "11000"),
        counter: 2,
        affected_rows: vec![Tag { name: "rust".to_string() }, Tag { name: "verus".to_string() }],
    };
    assert!(r.is_success());
    assert_eq!(r.tag_names(), vec!["rust".to_string(), "verus".to_string()]);
}

#[test]
fn media_file_data_url() {
    let f = MediaFile::new("a.txt".to_string(), "text/plain".to_string(), b"hello".to_vec());
    assert_eq!(f.size(), 5);
    assert_eq!(f.to_data_url(), "data:text/plain;base64,aGVsbG8=");
    let empty = MediaFile::new("e".to_string(), "image/png".to_string(), vec![]);
    assert_eq!(empty.to_data_url(), "data:image/png;base64,");
    let f = f.with_preview("blob:1".to_string());
    assert_eq!(f.preview_url, Some("blob:1".to_string()));
    assert_eq!(f.name, "a.txt");
}

#[test]
fn shop_product_stock() {
    let sized = ShopProduct {
        post_id: "p".to_string(),
        sizes: Some(vec![("S".to_string(), 0), ("M".to_string(), 3)]),
        one_size_stock: None,
    };
    assert!(sized.has_sizes());
    assert!(!sized.is_one_size());
    assert!(!sized.is_out_of_stock());
    let sold_out = ShopProduct {
        post_id: "p".to_string(),
        sizes: Some(vec![("S".to_string(), 0), ("M".to_string(), 0)]),
        one_size_stock: None,
    };
    assert!(sold_out.is_out_of_stock());
    let one = ShopProduct { post_id: "p".to_string(), sizes: None, one_size_stock: Some(0) };
    assert!(one.is_one_size());
    assert!(one.is_out_of_stock());
    let one_left = ShopProduct { post_id: "p".to_string(), sizes: None, one_size_stock: Some(1) };
    assert!(!one_left.is_out_of_stock());
    let nothing = ShopProduct { post_id: "p".to_string(), sizes: None, one_size_stock: None };
    assert!(!nothing.has_sizes());
    assert!(nothing.is_out_of_stock());
}

fn form(name: &str, email: &str, address: &str, city: &str, zip: &str) -> DeliveryFormData {
    DeliveryFormData {
        name: name.to_string(),
        email: email.to_string(),
        address_line_1: address.to_string(),
        address_line_2: String::new(),
        city: city.to_string(),
        zipcode: zip.to_string(),
    }
}

#[test]
fn delivery_form_rules() {
    let ok = validate_delivery_form(
        &form("Jo", "jo@example.com", "Main St 1", "Berlin", "10115"),
        true,
        &Some("M".to_string()),
    );
    assert!(!ok.has_errors());
    let bad = validate_delivery_form(&form(" J ", "jo@", "Main", "B", "1011a"), true, &None);
    assert_eq!(bad.name, Some("Name is required".to_string()));
    assert_eq!(bad.email, Some("Enter a valid email".to_string()));
    assert_eq!(bad.address_line_1, Some("Address is required".to_string()));
    assert_eq!(bad.city, Some("City is required".to_string()));
    assert_eq!(bad.zipcode, Some("Enter valid ZIP code".to_string()));
    assert_eq!(bad.size, Some("Please select a size".to_string()));
    assert!(bad.has_errors());
    let no_size_needed = validate_delivery_form(
        &form("Jo", "jo@example.com", "Main St 1", "Berlin", " 10115 "),
        false,
        &None,
    );
    assert!(!no_size_needed.has_errors());
}

#[test]
fn shop_order_response() {
    let r = PerformShopOrderResponse {
        status: "success".to_string(),
        request_id: None,
        response_code: None,
        response_message: None,
    };
    assert!(r.is_success());
    let r = PerformShopOrderResponse { status: "SUCCESS".to_string(), ..r };
    assert!(!r.is_success());
}

#[test]
fn status_is_case_insensitive() {
    let r = UserPreferencesUpdateResponse {
        status: "SUCCESS".to_string(),
        response_code: "11001".to_string(),
        affected_rows: None,
    };
    assert!(r.is_success());
}

#[test]
fn register_response_code_prefers_meta() {
    let r = RegisterResponse {
        status: "error".to_string(),
        response_code: Some("30601".to_string()),
        user_id: None,
        meta: None,
    };
    assert_eq!(r.code(), Some("30601"));
    let with_meta = RegisterResponse { meta: Some(meta("error", "40601")), ..r };
    assert_eq!(with_meta.code(), Some("40601"));
    let none = RegisterResponse {
        status: "error".to_string(),
        response_code: None,
        user_id: None,
        meta: None,
    };
    assert_eq!(none.code(), None);
}

#[test]
fn registration_input_with_pkey() {
    let i = RegistrationInput::new("a@b.co", "pw", "name").with_pkey("KEY");
    assert_eq!(i.pkey, Some("KEY".to_string()));
    assert_eq!(i.referral_uuid, None);
    assert_eq!(i.email, "a@b.co");
}

#[test]
fn advertisement_end_comparison() {
    assert!(ends_after("2025-06-10T00:00:00Z", "2025-06-09T23:59:59Z"));
    assert!(!ends_after("2025-06-10T00:00:00Z", "2025-06-10T00:00:00Z"));
    assert!(!ends_after("2024-01-01T00:00:00Z", "2025-01-01T00:00:00Z"));
    assert!(advertisement_is_active("9999-12-31T23:59:59Z"));
    assert!(!advertisement_is_active("2000-01-01T00:00:00Z"));
    assert!(!advertisement_is_active(""));
}
