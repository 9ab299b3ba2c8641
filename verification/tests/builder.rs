use rucaptcha::captcha::CaptchaBuilder;
use rucaptcha::format::ImageFormat;

#[test]
fn test_format() {
    let mut builder = CaptchaBuilder::new();
    assert_eq!(builder.config().format, ImageFormat::Png);

    builder = builder.format("jpg");
    assert_eq!(builder.config().format, ImageFormat::Jpeg);
    builder = builder.format("jpeg");
    assert_eq!(builder.config().format, ImageFormat::Jpeg);
    builder = builder.format("webp");
    assert_eq!(builder.config().format, ImageFormat::WebP);
    builder = builder.format("png");
    assert_eq!(builder.config().format, ImageFormat::Png);
    builder = builder.format("gif");
    assert_eq!(builder.config().format, ImageFormat::Png);
}

#[test]
fn test_line() {
    let mut builder = CaptchaBuilder::new();
    assert!(builder.config().line);

    builder = builder.line(false);
    assert!(!builder.config().line);
}

#[test]
fn test_noise() {
    let mut builder = CaptchaBuilder::new();
    assert!(!builder.config().noise);

    builder = builder.noise(true);
    assert!(builder.config().noise);
}

#[test]
fn test_difficulty() {
    let mut builder = CaptchaBuilder::new();
    assert_eq!(builder.config().complexity, 5);

    builder = builder.complexity(10);
    assert_eq!(builder.config().complexity, 10);

    builder = builder.complexity(11);
    assert_eq!(builder.config().complexity, 10);

    builder = builder.complexity(0);
    assert_eq!(builder.config().complexity, 1);
}

#[test]
fn test_length() {
    let mut builder = CaptchaBuilder::new();
    assert_eq!(builder.config().length, 4);

    builder = builder.length(10);
    assert_eq!(builder.config().length, 10);
}
