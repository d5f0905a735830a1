use plane_system::gs::{image_mime_type, ImageMime};
use plane_system::util::RetryBudget;

#[test]
fn mime_types_from_extensions() {
    assert_eq!(image_mime_type("DSC00001.JPG"), Some(ImageMime::Jpeg));
    assert_eq!(image_mime_type("a/b/shot.jpeg"), Some(ImageMime::Jpeg));
    assert_eq!(image_mime_type("clip.Mp4"), Some(ImageMime::Mp4));
    assert_eq!(image_mime_type("notes.txt"), None);
    assert_eq!(image_mime_type("README"), None);
    assert_eq!(image_mime_type(".jpg"), None);
    assert_eq!(ImageMime::Jpeg.as_str(), "image/jpeg");
    assert_eq!(ImageMime::Mp4.as_str(), "video/mp4");
}

#[test]
fn retries_stop_at_success_or_budget() {
    let mut b = RetryBudget::new(3);
    assert!(b.retry_after(true));
    assert!(b.retry_after(true));
    assert!(!b.retry_after(true));
    let mut b = RetryBudget::new(3);
    assert!(!b.retry_after(false));
    let mut b = RetryBudget::new(1);
    assert!(!b.retry_after(true));
}

use plane_system::camera::listing::{
    access_name, filesystem_name, format_hex4, object_type_name, storage_type_name,
};

#[test]
fn listing_names() {
    assert_eq!(format_hex4(0x00ab), "0x00ab");
    assert_eq!(format_hex4(0xC204), "0xc204");
    assert_eq!(access_name(0), "r+w");
    assert_eq!(access_name(2), "r");
    assert_eq!(access_name(0x8001), "0x8001");
    assert_eq!(filesystem_name(3), "dcf");
    assert_eq!(storage_type_name(4), "removable ram");
    assert_eq!(storage_type_name(5), "0x0005");
    assert_eq!(object_type_name(0x3801, 0), "exif-jpeg");
    assert_eq!(object_type_name(0x3001, 1), "folder");
    assert_eq!(object_type_name(0x3001, 0x8000), "0x8000");
    assert_eq!(object_type_name(0x300A, 0), "avi");
    assert_eq!(object_type_name(0xB101, 0), "0xb101");
}

use plane_system::camera::aux::save::save_pipeline_description;
use plane_system::camera::aux::stream::{
    fixed_stream_pipeline_description, stream_pipeline_description,
};
use plane_system::util::push_decimal;

#[test]
fn decimal_numbers() {
    let mut s = String::from("n=");
    push_decimal(&mut s, 0);
    assert_eq!(s, "n=0");
    let mut s = String::new();
    push_decimal(&mut s, 1234567890123);
    assert_eq!(s, "1234567890123");
    let mut s = String::new();
    push_decimal(&mut s, u64::MAX);
    assert_eq!(s, u64::MAX.to_string());
}

#[test]
fn save_pipelines() {
    let cams = vec!["v4l2src device=/dev/video0".to_string(), "videotestsrc".to_string()];
    assert_eq!(
        save_pipeline_description(&cams, "/tmp/rec-"),
        "\nv4l2src device=/dev/video0 ! queue ! x264enc ! mpegtsmux ! filesink location=/tmp/rec-0.mp4\nvideotestsrc ! queue ! x264enc ! mpegtsmux ! filesink location=/tmp/rec-1.mp4"
    );
    assert_eq!(save_pipeline_description(&vec![], "x"), "");
}

#[test]
fn stream_pipelines() {
    let cams = vec!["a".to_string(), "b".to_string()];
    assert_eq!(
        stream_pipeline_description(&cams, "10.0.0.2", 5000),
        "a ! videoconvert ! x264enc tune=zerolatency bitrate=500 speed-preset=superfast ! rtph264pay ! udpsink host=10.0.0.2 port=5000 b ! videoconvert ! x264enc tune=zerolatency bitrate=500 speed-preset=superfast ! rtph264pay ! udpsink host=10.0.0.2 port=5001 "
    );
    assert_eq!(
        fixed_stream_pipeline_description(true, "1.2.3.4"),
        "rpicamsrc ! h264parse ! x264enc ! rtph264pay config-interval=1 pt=96 ! gdppay ! udpsink clients=1.2.3.4:5000,1.2.3.4:5001"
    );
    let test = fixed_stream_pipeline_description(false, "h");
    assert!(test.starts_with("videotestsrc pattern=ball !"));
    assert!(test.contains("udpsink host=h port=5000 videotestsrc ! videoconvert"));
    assert!(test.ends_with("udpsink host=h port=5002"));
}
