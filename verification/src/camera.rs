use std::hash::Hasher;

use vstd::prelude::*;
use vstd::std_specs::hash::DefaultHasherAdditionalSpecFns;

use crate::capabilities::{video_capture_bit, CameraCapabilities};
use crate::text::{
    has_prefix, hex16, hex_digits, replace_char, replaced, starts_with, trim, trimmed,
};

verus! {

/// Where a camera comes from: a physical (USB) device or a virtual
/// (`v4l2loopback`) one.
#[derive(Clone, Copy, Debug, PartialEq, Eq, Structural)]
pub enum CameraType {
    Physical,
    Virtual,
}

/// A video camera found under `/dev/video*`.
#[derive(Debug)]
pub struct Camera {
    /// Stable identifier.
    pub uuid: String,
    /// Human-readable name.
    pub name: String,
    /// Device node, such as `/dev/video0`.
    pub path: String,
    /// Kernel driver.
    pub driver: String,
    /// Bus information.
    pub bus_info: String,
    /// What the device can do.
    pub capabilities: CameraCapabilities,
    /// Physical or virtual.
    pub camera_type: CameraType,
}

impl Camera {
    /// Builds a camera from its parts.
    pub fn new(
        uuid: String,
        name: String,
        path: String,
        driver: String,
        bus_info: String,
        camera_type: CameraType,
        capabilities: CameraCapabilities,
    ) -> (c: Camera)
        ensures
            c.uuid@ == uuid@,
            c.name@ == name@,
            c.path@ == path@,
            c.driver@ == driver@,
            c.bus_info@ == bus_info@,
            c.camera_type == camera_type,
            c.capabilities == capabilities,
    {
        Camera { uuid, name, path, driver, bus_info, capabilities, camera_type }
    }
}


/// What udev and the file system report of one `/dev/video*` node, as plain
/// values. Each `Option` holds a udev property of the node, where it has one.
#[derive(Debug, Default)]
pub struct VideoNode {
    /// The node's file name, such as `video0`.
    pub file_name: String,
    /// The node's path, such as `/dev/video0`.
    pub path: String,
    /// The device number of the node (`st_rdev`).
    pub devnum: u64,
    /// Whether the device hangs off a USB parent.
    pub is_usb: bool,
    /// `ID_SERIAL`.
    pub id_serial: Option<String>,
    /// `ID_SERIAL_SHORT`.
    pub id_serial_short: Option<String>,
    /// `ID_PATH`.
    pub id_path: Option<String>,
    /// `ID_MODEL`.
    pub id_model: Option<String>,
    /// `ID_V4L_PRODUCT`.
    pub id_v4l_product: Option<String>,
    /// `ID_V4L_DRIVER`.
    pub id_v4l_driver: Option<String>,
    /// `ID_V4L2_DRIVER`.
    pub id_v4l2_driver: Option<String>,
    /// `ID_BUS`.
    pub id_bus: Option<String>,
    /// `ID_USB_INTERFACES`.
    pub id_usb_interfaces: Option<String>,
}

/// The text of an optional property.
pub open spec fn text_of(o: Option<String>) -> Option<Seq<char>> {
    match o {
        Some(s) => Some(s@),
        None => None,
    }
}

/// The first of two optional texts that is present.
pub open spec fn first_present(a: Option<Seq<char>>, b: Option<Seq<char>>) -> Option<Seq<char>> {
    if a is Some {
        a
    } else {
        b
    }
}

/// The text, or `fallback` where there is none.
pub open spec fn text_or(o: Option<Seq<char>>, fallback: Seq<char>) -> Seq<char> {
    match o {
        Some(t) => t,
        None => fallback,
    }
}

/// Whether a node's uuid comes from the fingerprint of its name and device
/// number: a non-USB node without `ID_PATH`.
pub open spec fn uses_fingerprint(node: VideoNode) -> bool {
    !node.is_usb && node.id_path is None
}

/// The uuid of a node: for a USB device its serial (`ID_SERIAL`, else
/// `ID_SERIAL_SHORT`, else empty); otherwise its `ID_PATH`, else the
/// sixteen hexadecimal digits of `fingerprint`.
pub open spec fn node_uuid(node: VideoNode, fingerprint: u64) -> Seq<char> {
    if node.is_usb {
        text_or(first_present(text_of(node.id_serial), text_of(node.id_serial_short)), seq![])
    } else {
        text_or(text_of(node.id_path), hex_digits(fingerprint as nat, 16))
    }
}

/// The readable name of a node: `ID_MODEL`, else `ID_V4L_PRODUCT`, else
/// `ID_V4L_DRIVER`, else the file name; underscores become spaces, and white
/// space is trimmed from both ends.
pub open spec fn node_name(node: VideoNode) -> Seq<char> {
    let raw = text_or(
        first_present(
            text_of(node.id_model),
            first_present(text_of(node.id_v4l_product), text_of(node.id_v4l_driver)),
        ),
        node.file_name@,
    );
    trimmed(replaced(raw, '_', ' '))
}

/// The driver of a node: `ID_V4L_DRIVER`, else `ID_V4L2_DRIVER`, else empty.
pub open spec fn node_driver(node: VideoNode) -> Seq<char> {
    text_or(first_present(text_of(node.id_v4l_driver), text_of(node.id_v4l2_driver)), seq![])
}

/// The bus information of a node: `ID_BUS`, else `ID_USB_INTERFACES`, else
/// empty.
pub open spec fn node_bus_info(node: VideoNode) -> Seq<char> {
    text_or(first_present(text_of(node.id_bus), text_of(node.id_usb_interfaces)), seq![])
}

/// `camera` is what `node` describes, with `fingerprint` as the fallback
/// uuid source.
pub open spec fn describes(camera: Camera, node: VideoNode, fingerprint: u64) -> bool {
    &&& camera.uuid@ == node_uuid(node, fingerprint)
    &&& camera.name@ == node_name(node)
    &&& camera.path@ == node.path@
    &&& camera.driver@ == node_driver(node)
    &&& camera.bus_info@ == node_bus_info(node)
    &&& camera.camera_type == (if node.is_usb {
        CameraType::Physical
    } else {
        CameraType::Virtual
    })
    &&& camera.capabilities@ == video_capture_bit()
}

/// Whether a `/dev` entry named `name` is a video node: its name starts
/// with `video`.
pub fn is_video_node_name(name: &str) -> (r: bool)
    ensures
        r == has_prefix(name@, "video"@),
{
    starts_with(name, "video")
}

/// The first present of two optional texts, copied.
fn first_of(a: &Option<String>, b: &Option<String>) -> (r: Option<String>)
    ensures
        text_of(r) == first_present(text_of(*a), text_of(*b)),
{
    match a {
        Some(t) => Some(t.clone()),
        None => match b {
            Some(t) => Some(t.clone()),
            None => None,
        },
    }
}

/// The text, or an empty string where there is none.
fn text_or_empty(o: Option<String>) -> (r: String)
    ensures
        r@ == text_or(text_of(o), seq![]),
{
    match o {
        Some(t) => t,
        None => String::new(),
    }
}

/// The state of a `DefaultHasher` (in vstd's model: the byte strings written
/// to it) after `Hash::hash` of the string `s` from state `state`.
pub uninterp spec fn str_hashed_state(state: Seq<Seq<u8>>, s: Seq<char>) -> Seq<Seq<u8>>;

/// The state of a `DefaultHasher` after `Hash::hash` of the `u64` `v` from
/// state `state`.
pub uninterp spec fn u64_hashed_state(state: Seq<Seq<u8>>, v: u64) -> Seq<Seq<u8>>;

/// The fingerprint of a node named `file_name` with device number `devnum`:
/// what a fresh `DefaultHasher` finishes with after hashing the name and then
/// the number.
pub open spec fn node_fingerprint(file_name: Seq<char>, devnum: u64) -> u64 {
    std::collections::hash_map::DefaultHasher::spec_finish(
        u64_hashed_state(str_hashed_state(Seq::empty(), file_name), devnum),
    )
}

/// `Hash::hash` of a string slice into a `DefaultHasher`. std documents
/// neither the bytes that this feeds nor the hash algorithm; the new state is
/// named as a function of the old state and the string, and nothing more is
/// stated of it.
#[verifier::external_body]
fn hash_str(hasher: &mut std::collections::hash_map::DefaultHasher, s: &str)
    ensures
        final(hasher)@ == str_hashed_state(old(hasher)@, s@),
{
    std::hash::Hash::hash(s, hasher);
}

/// `Hash::hash` of a `u64` into a `DefaultHasher`. std documents neither the
/// bytes that this feeds nor the hash algorithm; the new state is named as a
/// function of the old state and the value, and nothing more is stated of it.
#[verifier::external_body]
fn hash_u64(hasher: &mut std::collections::hash_map::DefaultHasher, v: u64)
    ensures
        final(hasher)@ == u64_hashed_state(old(hasher)@, v),
{
    std::hash::Hash::hash(&v, hasher);
}

/// A fingerprint of a node: a fresh `DefaultHasher`, fed with the node's
/// file name and then its device number, and finished.
fn device_fingerprint(file_name: &str, devnum: u64) -> (r: u64)
    ensures
        r == node_fingerprint(file_name@, devnum),
{
    let mut hasher = std::collections::hash_map::DefaultHasher::new();
    hash_str(&mut hasher, file_name);
    hash_u64(&mut hasher, devnum);
    hasher.finish()
}

/// Describes the camera of a video node, with `fingerprint` standing for the
/// hash of the node's name and device number where the uuid needs it.
pub fn describe_camera_with_fingerprint(node: &VideoNode, fingerprint: u64) -> (c: Camera)
    ensures
        describes(c, *node, fingerprint),
{
    let uuid = if node.is_usb {
        text_or_empty(first_of(&node.id_serial, &node.id_serial_short))
    } else {
        match &node.id_path {
            Some(p) => p.clone(),
            None => hex16(fingerprint),
        }
    };
    let product = first_of(&node.id_v4l_product, &node.id_v4l_driver);
    let raw = match first_of(&node.id_model, &product) {
        Some(t) => t,
        None => node.file_name.clone(),
    };
    let spaced = replace_char(raw.as_str(), '_', ' ');
    let name = String::from_str(trim(spaced.as_str()));
    let driver = text_or_empty(first_of(&node.id_v4l_driver, &node.id_v4l2_driver));
    let bus_info = text_or_empty(first_of(&node.id_bus, &node.id_usb_interfaces));
    let camera_type = if node.is_usb {
        CameraType::Physical
    } else {
        CameraType::Virtual
    };
    Camera::new(
        uuid,
        name,
        node.path.clone(),
        driver,
        bus_info,
        camera_type,
        CameraCapabilities::video_capture(),
    )
}

/// Describes the camera of a video node. Where the uuid falls back to a
/// fingerprint, the node's name and device number are hashed.
pub fn describe_camera(node: &VideoNode) -> (c: Camera)
    ensures
        describes(c, *node, node_fingerprint(node.file_name@, node.devnum)),
{
    let fingerprint = if !node.is_usb && node.id_path.is_none() {
        device_fingerprint(node.file_name.as_str(), node.devnum)
    } else {
        0
    };
    let c = describe_camera_with_fingerprint(node, fingerprint);
    assert(node_uuid(*node, fingerprint) == node_uuid(
        *node,
        node_fingerprint(node.file_name@, node.devnum),
    ));
    c
}

/// A node is described in one way only: two descriptions of the same node
/// (with the same fingerprint, as `describe_camera` always uses) agree in
/// every field, so two scans of the same devices give the same cameras.
pub proof fn lemma_description_is_determined(c1: Camera, c2: Camera, node: VideoNode, fingerprint: u64)
    requires
        describes(c1, node, fingerprint),
        describes(c2, node, fingerprint),
    ensures
        c1.uuid@ == c2.uuid@,
        c1.name@ == c2.name@,
        c1.path@ == c2.path@,
        c1.driver@ == c2.driver@,
        c1.bus_info@ == c2.bus_info@,
        c1.camera_type == c2.camera_type,
        c1.capabilities == c2.capabilities,
{
    crate::capabilities::lemma_capabilities_determined_by_bits(c1.capabilities, c2.capabilities);
}

/// A camera whose uuid comes from the fingerprint gets sixteen lower-case
/// hexadecimal digits; a camera on USB is physical, any other virtual.
pub proof fn lemma_camera_shape(c: Camera, node: VideoNode, fingerprint: u64)
    requires
        describes(c, node, fingerprint),
    ensures
        uses_fingerprint(node) ==> c.uuid@.len() == 16,
        uses_fingerprint(node) ==> forall|i: int|
            0 <= i < 16 ==> {
                let ch = #[trigger] c.uuid@[i];
                (48 <= ch as int <= 57) || (97 <= ch as int <= 102)
            },
        (c.camera_type == CameraType::Physical) == node.is_usb,
{
    crate::text::lemma_hex_digits_shape(fingerprint as nat, 16);
}

/// The label of a camera type in listings.
pub open spec fn type_label_text(t: CameraType) -> Seq<char> {
    match t {
        CameraType::Physical => "fisica"@,
        CameraType::Virtual => "virtual"@,
    }
}

/// The label of a camera type in listings: `fisica` or `virtual`.
pub fn type_label(t: CameraType) -> (r: &'static str)
    ensures
        r@ == type_label_text(t),
{
    match t {
        CameraType::Physical => "fisica",
        CameraType::Virtual => "virtual",
    }
}

/// The listing line of a camera: `[label] name (path) uuid: uuid`.
pub open spec fn summary_text(c: Camera) -> Seq<char> {
    "["@ + type_label_text(c.camera_type) + "] "@ + c.name@ + " ("@ + c.path@ + ") uuid: "@
        + c.uuid@
}

impl Camera {
    /// The listing line of this camera: `[label] name (path) uuid: uuid`.
    pub fn summary(&self) -> (r: String)
        ensures
            r@ == summary_text(*self),
    {
        let mut s = String::from_str("[");
        s.append(type_label(self.camera_type));
        s.append("] ");
        s.append(self.name.as_str());
        s.append(" (");
        s.append(self.path.as_str());
        s.append(") uuid: ");
        s.append(self.uuid.as_str());
        s
    }
}

/// The listing line of a camera begins with `[fisica]` for a physical
/// camera and `[virtual]` for a virtual one, whatever its path, and goes on
/// with its name, its path in brackets and its uuid.
pub proof fn lemma_summary_label(c: Camera)
    ensures
        c.camera_type == CameraType::Physical ==> summary_text(c) == "[fisica] "@ + c.name@
            + " ("@ + c.path@ + ") uuid: "@ + c.uuid@,
        c.camera_type == CameraType::Virtual ==> summary_text(c) == "[virtual] "@ + c.name@
            + " ("@ + c.path@ + ") uuid: "@ + c.uuid@,
{
    reveal_strlit("[");
    reveal_strlit("] ");
    reveal_strlit("fisica");
    reveal_strlit("virtual");
    reveal_strlit("[fisica] ");
    reveal_strlit("[virtual] ");
    assert("["@ + "fisica"@ + "] "@ =~= "[fisica] "@);
    assert("["@ + "virtual"@ + "] "@ =~= "[virtual] "@);
    if c.camera_type == CameraType::Physical {
        assert(summary_text(c) =~= "[fisica] "@ + c.name@ + " ("@ + c.path@ + ") uuid: "@ + c.uuid@);
    } else {
        assert(summary_text(c) =~= "[virtual] "@ + c.name@ + " ("@ + c.path@ + ") uuid: "@
            + c.uuid@);
    }
}

} // verus!
