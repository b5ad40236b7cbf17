use wr::output::{
    BackgroundImage, CapturePlan, DeviceIntPoint, DeviceIntRect, DeviceIntSize, DisplayAction,
    Epoch, FlushStep, FramePlan, FramebufferIntRect, ImageKey, Next, Output, PhysicalSize,
    PipelineId, ResizePlan, Scene, StepResult,
};

fn size(width: u32, height: u32) -> PhysicalSize {
    PhysicalSize { width, height }
}

fn rect(x0: i32, y0: i32, x1: i32, y1: i32) -> DeviceIntRect {
    DeviceIntRect { min: DeviceIntPoint { x: x0, y: y0 }, max: DeviceIntPoint { x: x1, y: y1 } }
}

fn frame(width: u32, height: u32) -> FramePlan {
    FramePlan {
        epoch: Epoch(0),
        pipeline: PipelineId(0, 0),
        layout_size: size(width, height),
        device_size: DeviceIntSize { width: width as i32, height: height as i32 },
    }
}

#[test]
fn a_new_output_has_nothing() {
    let output = Output::build(size(800, 600));
    assert_eq!(output.get_previous_frame(), None);
    assert_eq!(output.get_inner_size(), size(800, 600));
    assert_eq!(output.get_device_size(), DeviceIntSize { width: 800, height: 600 });
    assert_eq!(output.get_color_bits(), 24);
}

#[test]
fn flush_without_scene_does_nothing() {
    let mut output = Output::build(size(800, 600));
    assert_eq!(output.flush(), None);
    assert_eq!(output.get_previous_frame(), None);
    assert_eq!(output.flush(), None);
    assert_eq!(
        output.display(),
        DisplayAction::Open(Scene { pipeline: PipelineId(0, 0), background: None })
    );
}

#[test]
fn drawing_calls_share_one_scene() {
    let mut output = Output::build(size(800, 600));
    assert_eq!(
        output.display(),
        DisplayAction::Open(Scene { pipeline: PipelineId(0, 0), background: None })
    );
    assert_eq!(output.display(), DisplayAction::Append);
    assert_eq!(output.display(), DisplayAction::Append);
    assert_eq!(output.flush(), Some(frame(800, 600)));
    assert_eq!(output.flush(), None);
}

#[test]
fn the_presented_frame_seeds_the_next_scene() {
    let mut output = Output::build(size(800, 600));
    output.display();
    assert_eq!(output.flush(), Some(frame(800, 600)));
    output.frame_captured(ImageKey(1, 42));
    assert_eq!(output.get_previous_frame(), Some(ImageKey(1, 42)));
    assert_eq!(
        output.display(),
        DisplayAction::Open(Scene {
            pipeline: PipelineId(0, 0),
            background: Some(BackgroundImage { key: ImageKey(1, 42), size: size(800, 600) }),
        })
    );
    assert_eq!(output.display(), DisplayAction::Append);
    assert_eq!(output.flush(), Some(frame(800, 600)));
    output.frame_captured(ImageKey(1, 43));
    assert_eq!(output.get_previous_frame(), Some(ImageKey(1, 43)));
}

#[test]
fn a_resize_shows_in_the_next_scene() {
    let mut output = Output::build(size(800, 600));
    output.display();
    output.flush();
    output.frame_captured(ImageKey(1, 1));
    assert_eq!(
        output.resize(&size(1024, 768)),
        ResizePlan {
            document_view: rect(0, 0, 1024, 768),
            surface_size: DeviceIntSize { width: 1024, height: 768 },
        }
    );
    assert_eq!(output.get_inner_size(), size(1024, 768));
    assert_eq!(
        output.display(),
        DisplayAction::Open(Scene {
            pipeline: PipelineId(0, 0),
            background: Some(BackgroundImage { key: ImageKey(1, 1), size: size(1024, 768) }),
        })
    );
    assert_eq!(output.flush(), Some(frame(1024, 768)));
}

#[test]
fn a_resize_leaves_scene_and_frame() {
    let mut output = Output::build(size(800, 600));
    output.display();
    output.flush();
    output.frame_captured(ImageKey(1, 1));
    output.display();
    output.resize(&size(10, 20));
    assert_eq!(output.get_previous_frame(), Some(ImageKey(1, 1)));
    assert_eq!(output.display(), DisplayAction::Append);
    assert_eq!(output.flush(), Some(frame(10, 20)));
}

#[test]
fn clearing_drops_the_scene() {
    let mut output = Output::build(size(800, 600));
    output.display();
    output.clear_display_list_builder();
    assert_eq!(output.flush(), None);
    output.clear_display_list_builder();
    assert_eq!(
        output.display(),
        DisplayAction::Open(Scene { pipeline: PipelineId(0, 0), background: None })
    );
}

#[test]
fn a_builder_is_seeded_with_the_given_image() {
    let output = Output::build(size(640, 480));
    assert_eq!(output.new_builder(None), Scene { pipeline: PipelineId(0, 0), background: None });
    assert_eq!(
        output.new_builder(Some(ImageKey(3, 4))),
        Scene {
            pipeline: PipelineId(0, 0),
            background: Some(BackgroundImage { key: ImageKey(3, 4), size: size(640, 480) }),
        }
    );
}

#[test]
fn device_sizes_keep_the_bits() {
    let output = Output::build(size(u32::MAX, 0x8000_0000));
    assert_eq!(output.get_device_size(), DeviceIntSize { width: -1, height: i32::MIN });
    let output = Output::build(size(0x7FFF_FFFF, 0));
    assert_eq!(output.get_device_size(), DeviceIntSize { width: i32::MAX, height: 0 });
}

#[test]
fn capture_keeps_the_rect_on_a_top_left_surface() {
    let output = Output::build(size(800, 600));
    assert_eq!(
        output.copy_framebuffer_to_texture(rect(10, 20, 110, 220), true),
        CapturePlan {
            fb_rect: FramebufferIntRect {
                origin: DeviceIntPoint { x: 10, y: 20 },
                size: DeviceIntSize { width: 100, height: 200 },
            },
            need_flip: false,
        }
    );
}

#[test]
fn capture_mirrors_the_rect_on_a_bottom_left_surface() {
    let output = Output::build(size(800, 600));
    assert_eq!(
        output.copy_framebuffer_to_texture(rect(10, 20, 110, 220), false),
        CapturePlan {
            fb_rect: FramebufferIntRect {
                origin: DeviceIntPoint { x: 10, y: 380 },
                size: DeviceIntSize { width: 100, height: 200 },
            },
            need_flip: true,
        }
    );
    assert_eq!(
        output.copy_framebuffer_to_texture(rect(0, 0, 800, 600), false),
        CapturePlan {
            fb_rect: FramebufferIntRect {
                origin: DeviceIntPoint { x: 0, y: 0 },
                size: DeviceIntSize { width: 800, height: 600 },
            },
            need_flip: true,
        }
    );
}

#[test]
fn capture_wraps_around() {
    let output = Output::build(size(800, 600));
    let plan = output.copy_framebuffer_to_texture(rect(i32::MIN, i32::MIN, i32::MAX, i32::MAX), false);
    assert_eq!(plan.fb_rect.size, DeviceIntSize { width: -1, height: -1 });
    assert_eq!(plan.fb_rect.origin, DeviceIntPoint { x: i32::MIN, y: 600i32.wrapping_sub(i32::MIN).wrapping_add(1) });
}

#[test]
fn flush_steps_come_in_order() {
    let order = [
        FlushStep::SendDisplayList,
        FlushStep::FlushSceneBuilder,
        FlushStep::BindFramebuffer,
        FlushStep::UpdateRenderer,
        FlushStep::MakeContextCurrent,
        FlushStep::Render,
        FlushStep::FlushPipelineInfo,
        FlushStep::ReleaseExternalImages,
        FlushStep::CaptureFrame,
        FlushStep::Present,
    ];
    let mut walked = vec![FlushStep::first()];
    loop {
        match walked[walked.len() - 1].next(StepResult::Succeeded) {
            Next::Step(step) => walked.push(step),
            Next::Finished => break,
            Next::Fatal => panic!("a success is never fatal"),
        }
    }
    assert_eq!(walked, order);
}

#[test]
fn only_a_failed_present_is_survived() {
    assert_eq!(FlushStep::Present.next(StepResult::Failed), Next::Finished);
    assert_eq!(FlushStep::Render.next(StepResult::Failed), Next::Fatal);
    assert_eq!(FlushStep::MakeContextCurrent.next(StepResult::Failed), Next::Fatal);
    assert_eq!(FlushStep::SendDisplayList.next(StepResult::Failed), Next::Fatal);
    assert_eq!(FlushStep::CaptureFrame.next(StepResult::Failed), Next::Fatal);
}
