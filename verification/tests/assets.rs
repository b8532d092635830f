use counterfire2::assets::{
    effect_sounds, png_dirs, is_ogg_extension, is_png_extension, hit_sfx_files, ogg_size_ok, sound_dirs, voice_file, AssetCatalog, AssetError, MAX_PNG_BYTES,
    MAX_TOTAL_PNG_BYTES,
};
use counterfire2::effects::{EffectKind, EventSpec, Lang, Side};

#[test]
fn catalog_ids_and_lookup() {
    let mut c = AssetCatalog::new();
    assert_eq!(c.admit_png("a", 10), Ok(()));
    assert_eq!(c.push_bitmap("a".to_owned(), vec![1, 2], 4, 5), Ok(1));
    assert_eq!(c.admit_png("b", 10), Ok(()));
    assert_eq!(c.push_bitmap("b".to_owned(), vec![3], 8192, 8192), Ok(2));
    assert_eq!(c.bitmaps().len(), 2);
    let a = c.bitmap("a").unwrap();
    assert_eq!((a.id, a.width, a.height, a.bytes.clone()), (1, 4, 5, vec![1, 2]));
    assert_eq!(c.bitmap("b").unwrap().id, 2);
    assert!(c.bitmap("c").is_none());
    assert_eq!(c.admit_png("a", 1), Err(AssetError::DuplicateName));
    assert_eq!(c.push_bitmap("a".to_owned(), vec![], 1, 1), Err(AssetError::DuplicateName));
    assert_eq!(c.push_bitmap("c".to_owned(), vec![], 8193, 1), Err(AssetError::DimensionsTooLarge));
    assert_eq!(c.bitmaps().len(), 2);
}

#[test]
fn catalog_size_limits() {
    let mut c = AssetCatalog::new();
    assert_eq!(c.admit_png("big", MAX_PNG_BYTES + 1), Err(AssetError::PngTooLarge));
    for i in 0..8 {
        assert_eq!(c.admit_png(&format!("p{i}"), MAX_PNG_BYTES), Ok(()));
    }
    assert_eq!(8 * MAX_PNG_BYTES, MAX_TOTAL_PNG_BYTES);
    assert_eq!(c.admit_png("one_more", 1), Err(AssetError::TotalTooLarge));
}

#[test]
fn sound_file_names() {
    let v = voice_file(Lang::En, Side::Ct, "MultiKill_2");
    assert_eq!(v.dir, "snd_en");
    assert_eq!(v.file, "MultiKill_2_CT.ogg");
    let c = voice_file(Lang::Cn, Side::T, "Headshot");
    assert_eq!((c.dir, c.file.as_str()), ("snd_cn", "Headshot_T.ogg"));
    let h = hit_sfx_files("UI_SPECIALKILL2");
    assert_eq!(h[0].dir, "snd_hit");
    assert_eq!(h[1].dir, "snd_gen");
    assert_eq!(h[0].file, "UI_SPECIALKILL2.ogg");
    assert_eq!(sound_dirs(), vec!["snd_cn", "snd_en", "snd_gen", "snd_hit"]);
    assert!(ogg_size_ok(16 * 1024 * 1024));
    assert!(!ogg_size_ok(16 * 1024 * 1024 + 1));
}

#[test]
fn extensions_and_effect_sounds() {
    assert!(is_png_extension("PNG"));
    assert!(!is_png_extension("pngx"));
    assert!(is_ogg_extension("Ogg"));
    let double = effect_sounds(&EventSpec { kind: EffectKind::Double }, Lang::En, Some(Side::T));
    assert_eq!(double.len(), 2);
    assert_eq!(double[0][0].dir, "snd_en");
    assert_eq!(double[0][0].file, "MultiKill_2_T.ogg");
    assert_eq!(double[1][0].file, "UI_SPECIALKILL2.ogg");
    assert_eq!(double[1][1].dir, "snd_gen");
    let no_side = effect_sounds(&EventSpec { kind: EffectKind::Double }, Lang::En, None);
    assert_eq!(no_side.len(), 1);
    let single = effect_sounds(&EventSpec { kind: EffectKind::Single }, Lang::Cn, Some(Side::Ct));
    assert_eq!(single.len(), 1);
    assert_eq!(single[0][0].dir, "snd_hit");
}

#[test]
fn pushed_images_keep_the_byte_limits() {
    let mut c = AssetCatalog::new();
    let too_big = vec![0u8; (MAX_PNG_BYTES + 1) as usize];
    assert_eq!(c.push_bitmap("big".to_owned(), too_big, 1, 1), Err(AssetError::PngTooLarge));
    for i in 0..8 {
        let full = vec![0u8; MAX_PNG_BYTES as usize];
        assert_eq!(c.push_bitmap(format!("p{i}"), full, 1, 1), Ok(i + 1));
    }
    assert_eq!(c.push_bitmap("one_more".to_owned(), vec![7], 1, 1), Err(AssetError::TotalTooLarge));
    assert_eq!(c.bitmaps().len(), 8);
    let total: usize = c.bitmaps().iter().map(|b| b.bytes.len()).sum();
    assert_eq!(total as u64, MAX_TOTAL_PNG_BYTES);
    assert_eq!(c.push_bitmap("p0".to_owned(), vec![], 1, 1), Err(AssetError::DuplicateName));
    assert_eq!(c.push_bitmap("wide".to_owned(), vec![], 1, 9000), Err(AssetError::DimensionsTooLarge));
}

#[test]
fn badges_load_before_flash_images() {
    assert_eq!(png_dirs(), vec!["badges", "fx"]);
}
