use cloud_satchel::background::{
    allowed_ext, check_copy_source, clean_image_path, copy_file_name, lower_ext, mime_for_ext,
    normalize_fit, picture_data_url, picture_path_to_read,
};

#[test]
fn accepted_picture_types() {
    for e in ["png", "jpg", "jpeg", "webp", "gif", "bmp"] {
        assert!(allowed_ext(e));
    }
    assert!(!allowed_ext("PNG"));
    assert!(!allowed_ext("svg"));
    assert_eq!(mime_for_ext("jpeg"), "image/jpeg");
    assert_eq!(mime_for_ext("jpg"), "image/jpeg");
    assert_eq!(mime_for_ext("bmp"), "image/bmp");
    assert_eq!(mime_for_ext("tiff"), "image/png");
    assert_eq!(lower_ext(Some("JPG"), "png"), "jpg");
    assert_eq!(lower_ext(None, "png"), "png");
}

#[test]
fn copy_checks() {
    assert_eq!(check_copy_source(false, Some("png")), Err("背景图片文件不存在".to_string()));
    assert_eq!(check_copy_source(true, Some("WebP")), Ok("webp".to_string()));
    assert_eq!(check_copy_source(true, None), Ok("png".to_string()));
    assert_eq!(check_copy_source(true, Some("exe")), Err("不支持的图片格式".to_string()));
    assert_eq!(copy_file_name(1700000000123, "png"), "bg-1700000000123.png");
}

#[test]
fn reading_and_settings() {
    assert_eq!(picture_path_to_read("   "), None);
    assert_eq!(picture_path_to_read(" C:\\a.png "), Some("C:\\a.png".to_string()));
    assert_eq!(picture_data_url(Some("GIF"), b"GIF89a"), "data:image/gif;base64,R0lGODlh");
    assert_eq!(picture_data_url(None, &[1, 2, 3]), "data:image/png;base64,AQID");
    assert_eq!(normalize_fit("contain"), "contain");
    assert_eq!(normalize_fit("stretch"), "cover");
    assert_eq!(clean_image_path("  x  "), "x");
}
