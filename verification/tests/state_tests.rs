use wgpu_n_body::galaxy::gen_actual_spir_g;
use wgpu_n_body::naming::ImageFormat;
use wgpu_n_body::render::{ClearColor, Pass, RenderCommand};
use wgpu_n_body::sim::{SimBuffer, SimCommand};
use wgpu_n_body::state::{SetupError, State};

#[test]
fn default_scene_of_two_galaxies_has_40002_bodies() {
    let mut bodies = gen_actual_spir_g(10_000, 2, true);
    let mut second = gen_actual_spir_g(10_000, 2, true);
    bodies.append(&mut second);
    assert_eq!(bodies.len(), 40_002);
    let state = State::new(bodies.len(), 1080, 1920, ImageFormat::Jpeg).unwrap();
    assert_eq!(state.sim_state.body_count(), 40_002);
    assert_eq!(state.sim_state.workgroups(), 157);
    assert_eq!(state.render_state.staging().size, 4352 * 1920);
}

#[test]
fn a_frame_draws_one_instance_per_body() {
    let state = State::new(5, 4, 4, ImageFormat::Png).unwrap();
    assert_eq!(
        state.render()[0],
        RenderCommand::Draw {
            pass: Pass::Splat,
            clear: ClearColor::Transparent,
            vertices: 3,
            instances: 5,
        }
    );
    assert_eq!(state.render(), state.render_state.render(5));
    assert_eq!(state.tick(), state.sim_state.tick());
}

#[test]
fn a_generated_pair_in_two_arms_is_snapshotted_as_five_bodies() {
    let bodies = gen_actual_spir_g(2, 2, true);
    let state = State::new(bodies.len(), 16, 16, ImageFormat::Png).unwrap();
    assert_eq!(state.sim_state.body_count(), 5);
    assert_eq!(state.sim_state.buffer(SimBuffer::Snapshot).size, 5 * 8);
    assert_eq!(
        state.tick(),
        vec![
            SimCommand::Dispatch { workgroups: 1 },
            SimCommand::CopyPositionsToSnapshot { bytes: 40 },
            SimCommand::Submit,
            SimCommand::WaitForSubmission,
        ]
    );
}

#[test]
fn setup_refuses_frames_too_wide_for_a_stride() {
    assert_eq!(
        State::new(5, u32::MAX, 1, ImageFormat::Png).err(),
        Some(SetupError::FrameTooWide)
    );
}

#[test]
fn setup_refuses_more_bodies_than_an_instance_count() {
    if usize::BITS > 32 {
        assert_eq!(
            State::new(u32::MAX as usize + 1, 16, 16, ImageFormat::Png).err(),
            Some(SetupError::TooManyBodies)
        );
        assert_eq!(
            State::new(u32::MAX as usize + 1, u32::MAX, 16, ImageFormat::Png).err(),
            Some(SetupError::FrameTooWide)
        );
    }
    assert!(State::new(u32::MAX as usize, 16, 16, ImageFormat::Png).is_ok());
}
