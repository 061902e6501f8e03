use webcam_proxy::camera::{
    describe_camera, describe_camera_with_fingerprint, is_video_node_name, type_label, VideoNode,
};
use webcam_proxy::capabilities::CameraCapabilities;
use webcam_proxy::{Camera, CameraType};

fn s(text: &str) -> String {
    text.to_string()
}

fn usb_node() -> VideoNode {
    VideoNode {
        file_name: s("video0"),
        path: s("/dev/video0"),
        devnum: 0x5100,
        is_usb: true,
        id_serial: Some(s("046d_HD_Pro_Webcam_C920_ABCDEF")),
        id_serial_short: Some(s("ABCDEF")),
        id_path: Some(s("pci-0000:00:14.0-usb-0:1:1.0-video-index0")),
        id_model: Some(s("HD_Pro_Webcam_C920")),
        id_v4l_product: Some(s("HD Pro Webcam C920")),
        id_v4l_driver: Some(s("uvcvideo")),
        id_v4l2_driver: Some(s("uvc")),
        id_bus: Some(s("usb")),
        id_usb_interfaces: Some(s(":0e0100:")),
    }
}

#[test]
fn camera_new_keeps_every_field() {
    let c = Camera::new(
        s("uuid-1"),
        s("Cam"),
        s("/dev/video3"),
        s("uvcvideo"),
        s("usb-1"),
        CameraType::Virtual,
        CameraCapabilities::meta_capture(),
    );
    assert_eq!(c.uuid, "uuid-1");
    assert_eq!(c.name, "Cam");
    assert_eq!(c.path, "/dev/video3");
    assert_eq!(c.driver, "uvcvideo");
    assert_eq!(c.bus_info, "usb-1");
    assert_eq!(c.camera_type, CameraType::Virtual);
    assert_eq!(c.capabilities, CameraCapabilities::meta_capture());
}

#[test]
fn capability_bits() {
    assert_eq!(CameraCapabilities::video_capture().bits(), 0x0000_0001);
    assert_eq!(CameraCapabilities::meta_capture().bits(), 0x0100_0000);
    assert_eq!(CameraCapabilities::empty().bits(), 0);
    assert_eq!(CameraCapabilities::all().bits(), 0x0100_0001);
    assert_eq!(CameraCapabilities::from_bits_truncate(0xffff_ffff).bits(), 0x0100_0001);
    assert_eq!(CameraCapabilities::from_bits_truncate(0x0000_0010).bits(), 0);
}

#[test]
fn capability_set_operations() {
    let video = CameraCapabilities::video_capture();
    let meta = CameraCapabilities::meta_capture();
    let both = video.union(meta);
    assert_eq!(both, CameraCapabilities::all());
    assert!(both.contains(video));
    assert!(both.contains(meta));
    assert!(!video.contains(meta));
    assert!(video.contains(CameraCapabilities::empty()));
    assert!(both.intersects(meta));
    assert!(!video.intersects(meta));
    let mut caps = CameraCapabilities::empty();
    caps.insert(meta);
    assert!(caps.contains(meta));
    caps.insert(video);
    assert_eq!(caps, both);
    caps.remove(meta);
    assert_eq!(caps, video);
    assert!(!caps.intersects(meta));
}

#[test]
fn video_node_names() {
    assert!(is_video_node_name("video0"));
    assert!(is_video_node_name("video62"));
    assert!(is_video_node_name("video"));
    assert!(!is_video_node_name("vide"));
    assert!(!is_video_node_name("media0"));
    assert!(!is_video_node_name("v4l-subdev0"));
    assert!(!is_video_node_name(""));
}

#[test]
fn usb_camera_uses_serial_model_and_is_physical() {
    let c = describe_camera_with_fingerprint(&usb_node(), 7);
    assert_eq!(c.uuid, "046d_HD_Pro_Webcam_C920_ABCDEF");
    assert_eq!(c.name, "HD Pro Webcam C920");
    assert_eq!(c.path, "/dev/video0");
    assert_eq!(c.driver, "uvcvideo");
    assert_eq!(c.bus_info, "usb");
    assert_eq!(c.camera_type, CameraType::Physical);
    assert_eq!(c.capabilities, CameraCapabilities::video_capture());
}

#[test]
fn usb_camera_falls_back_to_short_serial_then_empty() {
    let mut node = usb_node();
    node.id_serial = None;
    let c = describe_camera_with_fingerprint(&node, 7);
    assert_eq!(c.uuid, "ABCDEF");
    node.id_serial_short = None;
    let c = describe_camera_with_fingerprint(&node, 7);
    assert_eq!(c.uuid, "");
    // A USB camera never falls back to ID_PATH or to the fingerprint.
    assert_eq!(describe_camera(&node).uuid, "");
}

#[test]
fn virtual_camera_uses_id_path() {
    let mut node = usb_node();
    node.is_usb = false;
    let c = describe_camera_with_fingerprint(&node, 7);
    assert_eq!(c.uuid, "pci-0000:00:14.0-usb-0:1:1.0-video-index0");
    assert_eq!(c.camera_type, CameraType::Virtual);
}

#[test]
fn virtual_camera_without_id_path_uses_fingerprint_in_hex() {
    let node = VideoNode {
        file_name: s("video62"),
        path: s("/dev/video62"),
        devnum: 0x513e,
        id_v4l_product: Some(s("webcam_proxy")),
        ..VideoNode::default()
    };
    let c = describe_camera_with_fingerprint(&node, 0x0123_4567_89ab_cdef);
    assert_eq!(c.uuid, "0123456789abcdef");
    assert_eq!(c.name, "webcam proxy");
    assert_eq!(c.driver, "");
    assert_eq!(c.bus_info, "");
    assert_eq!(c.camera_type, CameraType::Virtual);
    let c = describe_camera_with_fingerprint(&node, 0xbeef);
    assert_eq!(c.uuid, "000000000000beef");
}

#[test]
fn fingerprint_uuid_is_sixteen_hex_digits_and_stable() {
    let node = VideoNode {
        file_name: s("video62"),
        path: s("/dev/video62"),
        devnum: 0x513e,
        ..VideoNode::default()
    };
    let a = describe_camera(&node);
    let b = describe_camera(&node);
    assert_eq!(a.uuid.len(), 16);
    assert!(a.uuid.chars().all(|c| c.is_ascii_digit() || ('a'..='f').contains(&c)));
    assert_eq!(a.uuid, b.uuid);
    let other = VideoNode { devnum: 0x513f, ..node };
    assert_ne!(describe_camera(&other).uuid, a.uuid);
}

#[test]
fn name_fallbacks_and_cleanup() {
    let mut node = usb_node();
    node.id_model = None;
    assert_eq!(describe_camera_with_fingerprint(&node, 0).name, "HD Pro Webcam C920");
    node.id_v4l_product = None;
    assert_eq!(describe_camera_with_fingerprint(&node, 0).name, "uvcvideo");
    node.id_v4l_driver = None;
    assert_eq!(describe_camera_with_fingerprint(&node, 0).name, "video0");
    node.id_model = Some(s("  _Integrated_Camera_ \t"));
    assert_eq!(describe_camera_with_fingerprint(&node, 0).name, "Integrated Camera");
}

#[test]
fn driver_and_bus_fallbacks() {
    let mut node = usb_node();
    node.id_v4l_driver = None;
    node.id_bus = None;
    let c = describe_camera_with_fingerprint(&node, 0);
    assert_eq!(c.driver, "uvc");
    assert_eq!(c.bus_info, ":0e0100:");
    node.id_v4l2_driver = None;
    node.id_usb_interfaces = None;
    let c = describe_camera_with_fingerprint(&node, 0);
    assert_eq!(c.driver, "");
    assert_eq!(c.bus_info, "");
}

#[test]
fn summary_lines() {
    assert_eq!(type_label(CameraType::Physical), "fisica");
    assert_eq!(type_label(CameraType::Virtual), "virtual");
    let c = describe_camera_with_fingerprint(&usb_node(), 0);
    assert_eq!(
        c.summary(),
        "[fisica] HD Pro Webcam C920 (/dev/video0) uuid: 046d_HD_Pro_Webcam_C920_ABCDEF"
    );
    let v = Camera::new(
        s("abc"),
        s("Loop"),
        s("/dev/video62"),
        s(""),
        s(""),
        CameraType::Virtual,
        CameraCapabilities::video_capture(),
    );
    assert_eq!(v.summary(), "[virtual] Loop (/dev/video62) uuid: abc");
}
