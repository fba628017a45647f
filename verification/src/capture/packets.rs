//! The rules of packet assembly that do not depend on coordinates.
//!
//! The point-space geometry (containment, overlap, the plausibility of an
//! accessibility frame, the fallback rectangle and the pixel crops) is
//! floating-point arithmetic and runs in the I/O shell; it hands the
//! outcome of each geometric test here as a plain value. What is decided
//! here: which display a packet is cut from, where its element comes
//! from, and how an assembly failure is reported.

use vstd::prelude::*;

use crate::capture::broker::FrameData;
use crate::capture::encoder::{crop_encodable, crop_error, crop_png, encode_crop_png};
use crate::capture::geometry::CropPx;
use crate::domain::schema::ElementSource;
use crate::recording::store::ShotPayloads;
use crate::text::{decimal, push_decimal};

verus! {

/// `a`, or `b` when `a` is absent.
pub open spec fn or_else(a: Option<u32>, b: Option<u32>) -> Option<u32> {
    match a {
        Some(x) => Some(x),
        None => b,
    }
}

/// Display selection. A click uses the display containing the click
/// point, else the main display. A key-down uses the display of the
/// focused element, else the display of the focused window, else the main
/// display. The backend lists the main display first.
pub open spec fn selected_display(
    is_click: bool,
    at_point: Option<u32>,
    at_element: Option<u32>,
    at_window: Option<u32>,
    main: Option<u32>,
) -> Option<u32> {
    if is_click {
        or_else(at_point, main)
    } else {
        or_else(or_else(at_element, at_window), main)
    }
}

/// Selects the display a packet is cut from; `None` only when the
/// snapshot lists no display at all.
pub fn select_display(
    is_click: bool,
    at_point: Option<u32>,
    at_element: Option<u32>,
    at_window: Option<u32>,
    main: Option<u32>,
) -> (r: Option<u32>)
    ensures
        r == selected_display(is_click, at_point, at_element, at_window, main),
{
    let chosen = if is_click {
        at_point
    } else {
        match at_element {
            Some(id) => Some(id),
            None => at_window,
        }
    };
    match chosen {
        Some(id) => Some(id),
        None => main,
    }
}

/// The element's source: the accessibility frame when one was resolved
/// and is plausible for the selected display, else the fixed-size
/// fallback.
pub fn element_source(resolved: bool, plausible: bool) -> (r: ElementSource)
    ensures
        r == (if resolved && plausible { ElementSource::Ax } else { ElementSource::Fallback }),
{
    if resolved && plausible {
        ElementSource::Ax
    } else {
        ElementSource::Fallback
    }
}

/// Packet assembly failure; both variants map to the coordinator's
/// single fail-stop path.
#[derive(Debug, Clone, PartialEq, Eq)]
pub enum PacketBuildError {
    /// The selected display retains no frame at all (an explicit
    /// fail-stop: no event is silently dropped).
    NoRetainedFrame { display_id: u32 },
    Encode(String),
}

/// The message of an assembly failure.
pub open spec fn packet_error_message(e: PacketBuildError) -> Seq<char> {
    match e {
        PacketBuildError::NoRetainedFrame { display_id } =>
            "no retained pre-event frame for display "@ + decimal(display_id as nat),
        PacketBuildError::Encode(error) => "screenshot encoding failed: "@ + error@,
    }
}

impl PacketBuildError {
    /// The error's message.
    pub fn to_string(&self) -> (r: String)
        ensures
            r@ == packet_error_message(*self),
    {
        match self {
            PacketBuildError::NoRetainedFrame { display_id } => {
                let mut s = String::from_str("no retained pre-event frame for display ");
                push_decimal(&mut s, *display_id as u64);
                s
            },
            PacketBuildError::Encode(error) => {
                let mut s = String::from_str("screenshot encoding failed: ");
                s.append(error.as_str());
                s
            },
        }
    }
}

/// Encodes the screenshot triple of one event from its frame: the full
/// display, the window crop and the element crop, in that order. The
/// first crop that does not encode fails the packet with its error.
pub fn encode_triple<D>(frame: &FrameData<D>, full: CropPx, window: CropPx, element: CropPx) -> (r:
    Result<ShotPayloads, PacketBuildError>)
    ensures
        (crop_encodable(*frame, full) && crop_encodable(*frame, window) && crop_encodable(
            *frame,
            element,
        )) ==> (r matches Ok(shots) && shots.full@ == crop_png(*frame, full) && shots.window@
            == crop_png(*frame, window) && shots.element@ == crop_png(*frame, element)),
        !crop_encodable(*frame, full) ==> (r matches Err(PacketBuildError::Encode(e)) && crop_error(
            *frame,
            full,
            e@,
        )),
        crop_encodable(*frame, full) && !crop_encodable(*frame, window) ==> (r matches Err(
            PacketBuildError::Encode(e),
        ) && crop_error(*frame, window, e@)),
        crop_encodable(*frame, full) && crop_encodable(*frame, window) && !crop_encodable(
            *frame,
            element,
        ) ==> (r matches Err(PacketBuildError::Encode(e)) && crop_error(*frame, element, e@)),
{
    let full_png = match encode_crop_png(frame, full) {
        Ok(bytes) => bytes,
        Err(e) => return Err(PacketBuildError::Encode(e)),
    };
    let window_png = match encode_crop_png(frame, window) {
        Ok(bytes) => bytes,
        Err(e) => return Err(PacketBuildError::Encode(e)),
    };
    let element_png = match encode_crop_png(frame, element) {
        Ok(bytes) => bytes,
        Err(e) => return Err(PacketBuildError::Encode(e)),
    };
    Ok(ShotPayloads { full: full_png, window: window_png, element: element_png })
}

/// The pinned frame of the selected display, or the assembly failure
/// when there is no display or it retains no frame (display 0 stands for
/// "no display").
pub fn require_frame<F>(display: Option<u32>, frame: Option<F>) -> (r: Result<F, PacketBuildError>)
    ensures
        match (display, frame) {
            (Some(_), Some(f)) => r == Ok::<F, PacketBuildError>(f),
            (Some(id), None) => r == Err::<F, PacketBuildError>(
                PacketBuildError::NoRetainedFrame { display_id: id },
            ),
            (None, _) => r == Err::<F, PacketBuildError>(
                PacketBuildError::NoRetainedFrame { display_id: 0 },
            ),
        },
{
    match display {
        None => Err(PacketBuildError::NoRetainedFrame { display_id: 0 }),
        Some(id) => match frame {
            Some(f) => Ok(f),
            None => Err(PacketBuildError::NoRetainedFrame { display_id: id }),
        },
    }
}

} // verus!
