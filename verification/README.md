# webcam_proxy

Verified core of a Linux webcam proxy that forwards a physical camera to a
`v4l2loopback` virtual camera (`/dev/video62`).

- `src/` is the library, proved with Verus:
  - `capabilities.rs`: the capability flags of a camera;
  - `camera.rs`: cameras, and how a camera is described from the udev
    properties of a `/dev/video*` node;
  - `text.rs`: decimal and hexadecimal notation, `/dev/videoN` paths, and the
    string operations of std that the library relies on;
  - `virtual_camera.rs`: the creation of the virtual camera (sysfs, `modprobe`,
    `sudo modprobe`, waiting for the node) as a state machine;
  - `formats.rs`: pixel formats, capture format candidates, frame-rate
    parameters;
  - `proxy.rs`: the proxy session (format negotiation, buffer set-up, frame
    forwarding loop) as a state machine.
- `app/` is the program: it performs the file, udev, process, V4L2 and poll
  operations that the state machines ask for.
- `tests/` runs the library on concrete cases.
