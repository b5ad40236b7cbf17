//! The frame output: one scene at a time, built up over many drawing calls,
//! then presented, and the presented frame kept as the background of the
//! next scene.
//!
//! Nothing here draws. An [`Output`] keeps track of what is open and what
//! was presented last, and says what is to be done to the compositor, the
//! renderer and the surface, and in which order; whoever owns those does it
//! and reports back.

use vstd::prelude::*;

verus! {

/// The compositor's handle of an image: a namespace and a number.
#[derive(Clone, Copy, Debug, PartialEq, Eq, Structural, Hash)]
pub struct ImageKey(pub u32, pub u32);

/// The compositor's handle of a pipeline.
#[derive(Clone, Copy, Debug, PartialEq, Eq, Structural, Hash)]
pub struct PipelineId(pub u32, pub u32);

/// The version under which a display list is submitted.
#[derive(Clone, Copy, Debug, PartialEq, Eq, Structural, Hash)]
pub struct Epoch(pub u32);

/// The size of a window, in physical pixels.
#[derive(Clone, Copy, Debug, PartialEq, Eq, Structural, Hash)]
pub struct PhysicalSize {
    pub width: u32,
    pub height: u32,
}

/// A size in device pixels.
#[derive(Clone, Copy, Debug, PartialEq, Eq, Structural, Hash)]
pub struct DeviceIntSize {
    pub width: i32,
    pub height: i32,
}

/// A point in device pixels.
#[derive(Clone, Copy, Debug, PartialEq, Eq, Structural, Hash)]
pub struct DeviceIntPoint {
    pub x: i32,
    pub y: i32,
}

/// A rectangle in device pixels, from `min` up to, not including, `max`.
#[derive(Clone, Copy, Debug, PartialEq, Eq, Structural, Hash)]
pub struct DeviceIntRect {
    pub min: DeviceIntPoint,
    pub max: DeviceIntPoint,
}

/// A rectangle of the framebuffer, by its origin and its size.
#[derive(Clone, Copy, Debug, PartialEq, Eq, Structural, Hash)]
pub struct FramebufferIntRect {
    pub origin: DeviceIntPoint,
    pub size: DeviceIntSize,
}

/// The pipeline of every scene.
pub open spec fn root_pipeline() -> PipelineId {
    PipelineId(0, 0)
}

/// The epoch of every display list.
pub open spec fn first_epoch() -> Epoch {
    Epoch(0)
}

/// The colour depth of the output, in bits.
pub const COLOR_BITS: u8 = 24;

/// The image that a scene is seeded with: the previous frame, stretched
/// over the whole viewport, which starts at the origin and has this size.
#[derive(Clone, Copy, Debug, PartialEq, Eq, Structural, Hash)]
pub struct BackgroundImage {
    pub key: ImageKey,
    pub size: PhysicalSize,
}

/// A scene that is being built.
#[derive(Clone, Copy, Debug, PartialEq, Eq, Structural, Hash)]
pub struct Scene {
    /// The pipeline that the scene is built for.
    pub pipeline: PipelineId,
    /// What the scene was seeded with when it was opened.
    pub background: Option<BackgroundImage>,
}

/// What is to be done for a drawing call.
#[derive(Clone, Copy, Debug, PartialEq, Eq, Structural, Hash)]
pub enum DisplayAction {
    /// Open a builder for this scene, push its background image if it has
    /// one, then draw into it.
    Open(Scene),
    /// Draw into the builder that is open.
    Append,
}

/// What is to be submitted and rendered for a frame.
#[derive(Clone, Copy, Debug, PartialEq, Eq, Structural, Hash)]
pub struct FramePlan {
    pub epoch: Epoch,
    pub pipeline: PipelineId,
    /// The size of the viewport that the display list is set for.
    pub layout_size: PhysicalSize,
    /// The size that is rendered, and captured afterwards.
    pub device_size: DeviceIntSize,
}

/// What is to be done to the compositor and the surface for a new size.
#[derive(Clone, Copy, Debug, PartialEq, Eq, Structural, Hash)]
pub struct ResizePlan {
    /// The view rectangle to set on the document.
    pub document_view: DeviceIntRect,
    /// The size to give the surface.
    pub surface_size: DeviceIntSize,
}

/// What is to be copied out of the framebuffer after rendering.
#[derive(Clone, Copy, Debug, PartialEq, Eq, Structural, Hash)]
pub struct CapturePlan {
    pub fb_rect: FramebufferIntRect,
    /// Whether the copy is upside down and has to be flipped when it is used.
    pub need_flip: bool,
}

/// The steps of presenting a frame.
#[derive(Clone, Copy, Debug, PartialEq, Eq, Structural, Hash)]
pub enum FlushStep {
    /// Send the transaction that sets the display list, makes its pipeline
    /// the root of the document and asks for a frame.
    SendDisplayList,
    /// Wait until the compositor has built the scene.
    FlushSceneBuilder,
    /// Bind the default framebuffer of the surface.
    BindFramebuffer,
    /// Let the renderer take in what the compositor built.
    UpdateRenderer,
    /// Make the rendering context current.
    MakeContextCurrent,
    /// Render to the framebuffer, at the device size.
    Render,
    /// Drain the renderer's notes on finished pipelines.
    FlushPipelineInfo,
    /// Release the external images that were bound for the frame.
    ReleaseExternalImages,
    /// Copy the framebuffer into a new image, and report it as captured.
    CaptureFrame,
    /// Present the surface.
    Present,
}

/// How a step ended.
#[derive(Clone, Copy, Debug, PartialEq, Eq, Structural, Hash)]
pub enum StepResult {
    Succeeded,
    Failed,
}

/// What follows a step.
#[derive(Clone, Copy, Debug, PartialEq, Eq, Structural, Hash)]
pub enum Next {
    /// Go on with this step.
    Step(FlushStep),
    /// The frame is done. Where the last step failed, the frame is lost and
    /// the failure is to be logged.
    Finished,
    /// The failure cannot be recovered from.
    Fatal,
}

/// The steps of presenting a frame, in their order.
pub open spec fn flush_order() -> Seq<FlushStep> {
    seq![
        FlushStep::SendDisplayList,
        FlushStep::FlushSceneBuilder,
        FlushStep::BindFramebuffer,
        FlushStep::UpdateRenderer,
        FlushStep::MakeContextCurrent,
        FlushStep::Render,
        FlushStep::FlushPipelineInfo,
        FlushStep::ReleaseExternalImages,
        FlushStep::CaptureFrame,
        FlushStep::Present,
    ]
}

/// The place of a step in the order of the steps.
pub open spec fn position(step: FlushStep) -> int {
    match step {
        FlushStep::SendDisplayList => 0,
        FlushStep::FlushSceneBuilder => 1,
        FlushStep::BindFramebuffer => 2,
        FlushStep::UpdateRenderer => 3,
        FlushStep::MakeContextCurrent => 4,
        FlushStep::Render => 5,
        FlushStep::FlushPipelineInfo => 6,
        FlushStep::ReleaseExternalImages => 7,
        FlushStep::CaptureFrame => 8,
        FlushStep::Present => 9,
    }
}

/// What follows a step that ended with `result`: after a success the next
/// step in order, and the end after the last; a failed present ends the
/// frame, any other failure is fatal.
pub open spec fn next_of(step: FlushStep, result: StepResult) -> Next {
    if result == StepResult::Failed {
        if step == FlushStep::Present {
            Next::Finished
        } else {
            Next::Fatal
        }
    } else if position(step) + 1 < flush_order().len() {
        Next::Step(flush_order()[position(step) + 1])
    } else {
        Next::Finished
    }
}

/// A window coordinate as a device coordinate: the same bits, read as a
/// signed number.
pub open spec fn device_coord_of(x: u32) -> i32 {
    if x <= i32::MAX {
        x as i32
    } else {
        (x - 0x1_0000_0000) as i32
    }
}

/// A window size as a device size.
pub open spec fn device_size_of(size: PhysicalSize) -> DeviceIntSize {
    DeviceIntSize { width: device_coord_of(size.width), height: device_coord_of(size.height) }
}

/// The rectangle of a device size, at the origin.
pub open spec fn rect_of(size: DeviceIntSize) -> DeviceIntRect {
    DeviceIntRect {
        min: DeviceIntPoint { x: 0, y: 0 },
        max: DeviceIntPoint { x: size.width, y: size.height },
    }
}

/// The part of the framebuffer that holds a rectangle of the device: the
/// same rectangle where the surface's origin is its top left corner, else
/// the rectangle mirrored top to bottom within the device height. The sums
/// wrap around.
pub open spec fn capture_of(
    device_rect: DeviceIntRect,
    device_size: DeviceIntSize,
    surface_origin_is_top_left: bool,
) -> CapturePlan {
    let width = device_rect.max.x.wrapping_sub(device_rect.min.x);
    let height = device_rect.max.y.wrapping_sub(device_rect.min.y);
    let y = if surface_origin_is_top_left {
        device_rect.min.y
    } else {
        device_size.height.wrapping_sub(device_rect.min.y).wrapping_sub(height)
    };
    CapturePlan {
        fb_rect: FramebufferIntRect {
            origin: DeviceIntPoint { x: device_rect.min.x, y },
            size: DeviceIntSize { width, height },
        },
        need_flip: !surface_origin_is_top_left,
    }
}

/// The state of an output, as mathematical values.
pub struct OutputView {
    /// The inner size of the window.
    pub size: PhysicalSize,
    /// The scene that is being built, if any.
    pub scene: Option<Scene>,
    /// The image of the frame presented last, if any.
    pub previous_frame_image: Option<ImageKey>,
}

/// The scene that is opened in a state.
pub open spec fn seeded(state: OutputView) -> Scene {
    Scene {
        pipeline: root_pipeline(),
        background: match state.previous_frame_image {
            Some(key) => Some(BackgroundImage { key, size: state.size }),
            None => None,
        },
    }
}

/// The state after a drawing call, and what is to be done for it.
pub open spec fn displayed(state: OutputView) -> (OutputView, DisplayAction) {
    match state.scene {
        Some(_) => (state, DisplayAction::Append),
        None => (
            OutputView { scene: Some(seeded(state)), ..state },
            DisplayAction::Open(seeded(state)),
        ),
    }
}

/// The frame that is submitted for a state.
pub open spec fn frame_of(state: OutputView) -> FramePlan {
    FramePlan {
        epoch: first_epoch(),
        pipeline: root_pipeline(),
        layout_size: state.size,
        device_size: device_size_of(state.size),
    }
}

/// The state after a flush, and the frame to present, if any.
pub open spec fn flushed(state: OutputView) -> (OutputView, Option<FramePlan>) {
    match state.scene {
        Some(_) => (OutputView { scene: None, ..state }, Some(frame_of(state))),
        None => (state, None),
    }
}

/// The state after a frame was captured into `image`.
pub open spec fn captured(state: OutputView, image: ImageKey) -> OutputView {
    OutputView { previous_frame_image: Some(image), ..state }
}

/// The state after the window got a new size.
pub open spec fn resized(state: OutputView, size: PhysicalSize) -> OutputView {
    OutputView { size, ..state }
}

/// What is to be done for a new size.
pub open spec fn resize_plan_of(size: PhysicalSize) -> ResizePlan {
    ResizePlan {
        document_view: rect_of(device_size_of(size)),
        surface_size: device_size_of(size),
    }
}

/// A window coordinate as a device coordinate.
fn device_coord(x: u32) -> (r: i32)
    ensures
        r == device_coord_of(x),
{
    if x <= 0x7FFF_FFFF {
        x as i32
    } else {
        (x as i64 - 0x1_0000_0000) as i32
    }
}

impl FlushStep {
    /// The step with which presenting a frame begins.
    pub fn first() -> (r: FlushStep)
        ensures
            r == flush_order()[0],
    {
        FlushStep::SendDisplayList
    }

    /// What follows this step, once it ended with `result`.
    pub fn next(self, result: StepResult) -> (r: Next)
        ensures
            r == next_of(self, result),
    {
        match result {
            StepResult::Failed => match self {
                FlushStep::Present => Next::Finished,
                _ => Next::Fatal,
            },
            StepResult::Succeeded => match self {
                FlushStep::SendDisplayList => Next::Step(FlushStep::FlushSceneBuilder),
                FlushStep::FlushSceneBuilder => Next::Step(FlushStep::BindFramebuffer),
                FlushStep::BindFramebuffer => Next::Step(FlushStep::UpdateRenderer),
                FlushStep::UpdateRenderer => Next::Step(FlushStep::MakeContextCurrent),
                FlushStep::MakeContextCurrent => Next::Step(FlushStep::Render),
                FlushStep::Render => Next::Step(FlushStep::FlushPipelineInfo),
                FlushStep::FlushPipelineInfo => Next::Step(FlushStep::ReleaseExternalImages),
                FlushStep::ReleaseExternalImages => Next::Step(FlushStep::CaptureFrame),
                FlushStep::CaptureFrame => Next::Step(FlushStep::Present),
                FlushStep::Present => Next::Finished,
            },
        }
    }
}

/// The state of one output.
pub struct Output {
    size: PhysicalSize,
    display_list_builder: Option<Scene>,
    previous_frame_image: Option<ImageKey>,
}

impl View for Output {
    type V = OutputView;

    closed spec fn view(&self) -> OutputView {
        OutputView {
            size: self.size,
            scene: self.display_list_builder,
            previous_frame_image: self.previous_frame_image,
        }
    }
}

impl Output {
    /// The output of a window of the given inner size: no scene is open, and
    /// no frame was presented.
    pub fn build(size: PhysicalSize) -> (r: Output)
        ensures
            r@ == (OutputView { size, scene: None, previous_frame_image: None }),
    {
        Output { size, display_list_builder: None, previous_frame_image: None }
    }

    /// The part of the framebuffer to copy, after rendering, to keep what
    /// `device_rect` shows.
    pub fn copy_framebuffer_to_texture(
        &self,
        device_rect: DeviceIntRect,
        surface_origin_is_top_left: bool,
    ) -> (r: CapturePlan)
        ensures
            r == capture_of(device_rect, device_size_of(self@.size), surface_origin_is_top_left),
    {
        let device_size = self.get_device_size();
        let width = device_rect.max.x.wrapping_sub(device_rect.min.x);
        let height = device_rect.max.y.wrapping_sub(device_rect.min.y);
        let y = if surface_origin_is_top_left {
            device_rect.min.y
        } else {
            device_size.height.wrapping_sub(device_rect.min.y).wrapping_sub(height)
        };
        CapturePlan {
            fb_rect: FramebufferIntRect {
                origin: DeviceIntPoint { x: device_rect.min.x, y },
                size: DeviceIntSize { width, height },
            },
            need_flip: !surface_origin_is_top_left,
        }
    }

    /// The scene that a new builder is opened for: seeded with `image`,
    /// stretched over the whole viewport, where there is one.
    pub fn new_builder(&self, image: Option<ImageKey>) -> (r: Scene)
        ensures
            r == (Scene {
                pipeline: root_pipeline(),
                background: match image {
                    Some(key) => Some(BackgroundImage { key, size: self@.size }),
                    None => None,
                },
            }),
    {
        Scene {
            pipeline: PipelineId(0, 0),
            background: match image {
                Some(key) => Some(BackgroundImage { key, size: self.size }),
                None => None,
            },
        }
    }

    /// The inner size of the window.
    pub fn get_inner_size(&self) -> (r: PhysicalSize)
        ensures
            r == self@.size,
    {
        self.size
    }

    /// The inner size of the window, in device pixels.
    pub fn get_device_size(&self) -> (r: DeviceIntSize)
        ensures
            r == device_size_of(self@.size),
    {
        DeviceIntSize {
            width: device_coord(self.size.width),
            height: device_coord(self.size.height),
        }
    }

    /// Notes the inner size that the window has now. Drawing calls and
    /// flushes go by the size noted last.
    pub fn set_inner_size(&mut self, size: PhysicalSize)
        ensures
            final(self)@ == resized(old(self)@, size),
    {
        self.size = size;
    }

    /// Takes a drawing call. Where no scene is open, one is opened, seeded
    /// with the previous frame over the whole viewport if there is a
    /// previous frame; the drawing then goes into the open scene.
    pub fn display(&mut self) -> (r: DisplayAction)
        ensures
            final(self)@ == displayed(old(self)@).0,
            r == displayed(old(self)@).1,
    {
        if self.display_list_builder.is_none() {
            let scene = self.new_builder(self.previous_frame_image);
            self.display_list_builder = Some(scene);
            DisplayAction::Open(scene)
        } else {
            DisplayAction::Append
        }
    }

    /// Ends the open scene and gives the frame to present for it; does
    /// nothing, and gives nothing, where no scene is open.
    pub fn flush(&mut self) -> (r: Option<FramePlan>)
        ensures
            final(self)@ == flushed(old(self)@).0,
            r == flushed(old(self)@).1,
    {
        if self.display_list_builder.is_none() {
            return None;
        }
        self.display_list_builder = None;
        Some(
            FramePlan {
                epoch: Epoch(0),
                pipeline: PipelineId(0, 0),
                layout_size: self.size,
                device_size: self.get_device_size(),
            },
        )
    }

    /// Notes the image into which the frame just rendered was captured: it
    /// is the previous frame from now on.
    pub fn frame_captured(&mut self, image: ImageKey)
        ensures
            final(self)@ == captured(old(self)@, image),
    {
        self.previous_frame_image = Some(image);
    }

    /// The image of the frame presented last, if any.
    pub fn get_previous_frame(&self) -> (r: Option<ImageKey>)
        ensures
            r == self@.previous_frame_image,
    {
        self.previous_frame_image
    }

    /// Drops the open scene, if any, without presenting it.
    pub fn clear_display_list_builder(&mut self)
        ensures
            final(self)@ == (OutputView { scene: None, ..old(self)@ }),
    {
        self.display_list_builder = None;
    }

    /// The colour depth of the output, in bits.
    pub fn get_color_bits(&self) -> (r: u8)
        ensures
            r == COLOR_BITS,
    {
        COLOR_BITS
    }

    /// Takes the new inner size of the window, and says what to set on the
    /// document and the surface for it.
    pub fn resize(&mut self, size: &PhysicalSize) -> (r: ResizePlan)
        ensures
            final(self)@ == resized(old(self)@, *size),
            r == resize_plan_of(*size),
    {
        self.set_inner_size(*size);
        let device_size = self.get_device_size();
        ResizePlan {
            document_view: DeviceIntRect {
                min: DeviceIntPoint { x: 0, y: 0 },
                max: DeviceIntPoint { x: device_size.width, y: device_size.height },
            },
            surface_size: device_size,
        }
    }
}

/// The steps follow each other in their order, the first first, and the
/// frame is done after the last.
pub proof fn lemma_flush_steps_in_order(i: int)
    requires
        0 <= i < flush_order().len(),
    ensures
        position(flush_order()[i]) == i,
        i + 1 < flush_order().len() ==> next_of(flush_order()[i], StepResult::Succeeded)
            == Next::Step(flush_order()[i + 1]),
        i + 1 == flush_order().len() ==> next_of(flush_order()[i], StepResult::Succeeded)
            == Next::Finished,
{
}

/// Only a failed present is survived: it ends the frame. Every other
/// failure is fatal.
pub proof fn lemma_failures(step: FlushStep)
    ensures
        next_of(step, StepResult::Failed) == if step == FlushStep::Present {
            Next::Finished
        } else {
            Next::Fatal
        },
{
}

/// The context is made current right before rendering, and the frame is
/// captured after rendering and before it is presented.
pub proof fn lemma_render_order()
    ensures
        position(FlushStep::MakeContextCurrent) + 1 == position(FlushStep::Render),
        position(FlushStep::FlushSceneBuilder) < position(FlushStep::Render),
        position(FlushStep::Render) < position(FlushStep::CaptureFrame),
        position(FlushStep::CaptureFrame) < position(FlushStep::Present),
{
}

/// A flush without an open scene gives no frame and changes nothing.
pub proof fn lemma_flush_without_scene(state: OutputView)
    requires
        state.scene is None,
    ensures
        flushed(state).1 is None,
        flushed(state).0 == state,
{
}

/// No scene is flushed twice: right after a flush, another gives nothing.
pub proof fn lemma_flush_once(state: OutputView)
    ensures
        flushed(flushed(state).0).1 is None,
        flushed(flushed(state).0).0 == flushed(state).0,
{
}

/// At most one scene is open: drawing calls between two flushes all go
/// into the scene that the first of them opened.
pub proof fn lemma_display_appends(state: OutputView)
    ensures
        displayed(displayed(state).0).1 == DisplayAction::Append,
        displayed(displayed(state).0).0 == displayed(state).0,
        displayed(state).0.scene is Some,
{
}

/// After a drawing call, a flush and the capture of the frame, there is a
/// previous frame, and the next drawing call opens a scene that has it as
/// background over the whole viewport.
pub proof fn lemma_previous_frame_seeds_next_scene(state: OutputView, image: ImageKey)
    ensures
        ({
            let drawn = displayed(state).0;
            let presented = captured(flushed(drawn).0, image);
            &&& flushed(drawn).1 is Some
            &&& presented.previous_frame_image == Some(image)
            &&& displayed(presented).1 == DisplayAction::Open(
                Scene {
                    pipeline: root_pipeline(),
                    background: Some(BackgroundImage { key: image, size: presented.size }),
                },
            )
        }),
{
}

/// After a resize, with no scene open, the next scene is seeded with a
/// background of the new size, where there is a previous frame, and the
/// frame presented for it has the new size.
pub proof fn lemma_resize_then_display(state: OutputView, size: PhysicalSize)
    requires
        state.scene is None,
    ensures
        ({
            let drawn = displayed(resized(state, size));
            &&& drawn.1 is Open
            &&& state.previous_frame_image is Some ==> drawn.1->Open_0.background is Some
                && drawn.1->Open_0.background->0.size == size
            &&& flushed(drawn.0).1 == Some(
                FramePlan {
                    epoch: first_epoch(),
                    pipeline: root_pipeline(),
                    layout_size: size,
                    device_size: device_size_of(size),
                },
            )
        }),
{
}

/// Where a rectangle lies within the device, its copy in a framebuffer
/// whose origin is at the bottom left starts as far from the bottom as the
/// rectangle ends from the top, and has the rectangle's size.
pub proof fn lemma_capture_flipped(device_rect: DeviceIntRect, device_size: DeviceIntSize)
    requires
        0 <= device_rect.min.x <= device_rect.max.x <= device_size.width,
        0 <= device_rect.min.y <= device_rect.max.y <= device_size.height,
    ensures
        ({
            let plan = capture_of(device_rect, device_size, false);
            &&& plan.need_flip
            &&& plan.fb_rect.origin.x == device_rect.min.x
            &&& plan.fb_rect.origin.y == device_size.height - device_rect.max.y
            &&& plan.fb_rect.size.width == device_rect.max.x - device_rect.min.x
            &&& plan.fb_rect.size.height == device_rect.max.y - device_rect.min.y
        }),
{
}

} // verus!
