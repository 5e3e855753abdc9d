use vdconvert::res_name::to_res_name;

#[test]
fn test_camel_case_to_shake_case() {
    let source_name = "ImgAndroidBanner".to_string();
    let res_name = "img_android_banner".to_string();
    assert_eq!(to_res_name(&source_name), res_name);
}

#[test]
fn test_non_alphabetic_symbols() {
    let source_name = "ic_36/fingerprint".to_string();
    let res_name = "ic_36_fingerprint".to_string();
    assert_eq!(to_res_name(&source_name), res_name);
}

#[test]
fn test_uppercase_to_lowercase() {
    let source_name = "img_PRIME_TariffAndroid".to_string();
    let res_name = "img_prime_tariff_android".to_string();
    assert_eq!(to_res_name(&source_name), res_name);
}

#[test]
fn test_complex() {
    let source_name = "ic_24/paper_ID_leftAndroid 100%".to_string();
    let res_name = "ic_24_paper_id_left_android_100_".to_string();
    assert_eq!(to_res_name(&source_name), res_name);
}

#[test]
fn test_nothing_changes() {
    let source_name = "img_promo_banner".to_string();
    let res_name = "img_promo_banner".to_string();
    assert_eq!(to_res_name(&source_name), res_name);
}

#[test]
fn res_name_leading_capital_gets_no_underscore() {
    assert_eq!(to_res_name(&"Icon".to_string()), "icon".to_string());
    assert_eq!(to_res_name(&"".to_string()), "".to_string());
}
