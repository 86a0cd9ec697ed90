use raytracer::config::{check_image, ConfigError, RenderConfig};

#[test]
fn good_settings_are_kept() {
    let config = RenderConfig::new(1280, 720, 100, 50).unwrap();
    assert_eq!(config.width(), 1280);
    assert_eq!(config.height(), 720);
    assert_eq!(config.samples_per_pixel(), 100);
    assert_eq!(config.max_depth(), 50);
    assert!(RenderConfig::new(1, 1, 1, 0).is_ok());
}

#[test]
fn zero_samples_are_refused() {
    assert_eq!(RenderConfig::new(1280, 720, 0, 50).err(), Some(ConfigError::NoSamples));
    assert_eq!(RenderConfig::new(1280, 720, -3, 50).err(), Some(ConfigError::NoSamples));
}

#[test]
fn empty_images_are_refused() {
    assert_eq!(RenderConfig::new(0, 720, 100, 50).err(), Some(ConfigError::EmptyImage));
    assert_eq!(RenderConfig::new(1280, 0, 100, 50).err(), Some(ConfigError::EmptyImage));
    assert_eq!(RenderConfig::new(-1, 720, 100, 50).err(), Some(ConfigError::EmptyImage));
    assert_eq!(RenderConfig::new(1280, i32::MIN, 100, 50).err(), Some(ConfigError::EmptyImage));
}

#[test]
fn negative_depth_is_refused() {
    assert_eq!(RenderConfig::new(1280, 720, 100, -1).err(), Some(ConfigError::NegativeDepth));
}

#[test]
fn huge_images_are_refused() {
    assert_eq!(
        RenderConfig::new(i32::MAX, i32::MAX, 100, 50).err(),
        Some(ConfigError::ImageTooLarge)
    );
    // 715827882 * 3 = 2147483646 fits, one pixel more does not.
    assert_eq!(check_image(715_827_882, 1), None);
    assert_eq!(check_image(715_827_883, 1), Some(ConfigError::ImageTooLarge));
    assert_eq!(check_image(26_755, 26_755), Some(ConfigError::ImageTooLarge));
    assert_eq!(check_image(26_754, 26_754), None);
}

#[test]
fn the_image_is_looked_at_first() {
    assert_eq!(RenderConfig::new(0, 0, 0, -1).err(), Some(ConfigError::EmptyImage));
    assert_eq!(RenderConfig::new(4, 4, 0, -1).err(), Some(ConfigError::NoSamples));
}

#[test]
fn every_error_has_its_words() {
    assert_eq!(
        ConfigError::EmptyImage.message(),
        "image width and height must both be at least 1"
    );
    assert_eq!(
        ConfigError::ImageTooLarge.message(),
        "image is too large: width * height * 3 must not exceed 2147483647"
    );
    assert_eq!(ConfigError::NoSamples.message(), "samples per pixel must be at least 1");
    assert_eq!(ConfigError::NegativeDepth.message(), "maximum depth must not be negative");
    assert_eq!(ConfigError::ZeroRadius.message(), "sphere radius must not be zero");
}
