use acure::marshal::{
    channel_to_u16, color_to_rgb16, rectangle_corners, text_format, Corners, FORMAT_BOTTOM,
    FORMAT_CENTER, FORMAT_LEFT, FORMAT_RIGHT, FORMAT_TOP,
};
use acure::{
    argb, color_to_argb, color_to_rgb, AcureError, AlignMode, Backend, Color, Command,
};

#[test]
fn argb_packs_alpha_first() {
    assert_eq!(argb(255, 1, 2, 3), 0xFF01_0203);
    assert_eq!(argb(0, 0, 0, 0), 0);
    assert_eq!(argb(255, 255, 255, 255), u32::MAX);
    assert_eq!(argb(0x12, 0x34, 0x56, 0x78), 0x1234_5678);
}

#[test]
fn color_to_argb_packs_the_channels() {
    assert_eq!(color_to_argb(Color::ARGB(255, 255, 0, 0)), 0xFFFF_0000);
    assert_eq!(color_to_argb(Color::ARGB(1, 2, 3, 4)), 0x0102_0304);
}

#[test]
fn color_to_rgb_packs_red_lowest_and_drops_alpha() {
    assert_eq!(color_to_rgb(Color::ARGB(9, 1, 2, 3)), 0x0003_0201);
    assert_eq!(color_to_rgb(Color::ARGB(255, 255, 0, 0)), 0x0000_00FF);
    assert_eq!(color_to_rgb(Color::ARGB(0, 255, 255, 255)), 0x00FF_FFFF);
}

#[test]
fn text_format_of_each_alignment() {
    assert_eq!(text_format(AlignMode::CenterAligned), 1);
    assert_eq!(text_format(AlignMode::RightAligned), 2);
    assert_eq!(text_format(AlignMode::LeftAligned), 0);
    assert_eq!(text_format(AlignMode::TopAligned), 0);
    assert_eq!(text_format(AlignMode::BottomAligned), 8);
    assert_eq!(text_format(AlignMode::Flex), 0);
    assert_eq!(
        (FORMAT_TOP, FORMAT_LEFT, FORMAT_CENTER, FORMAT_RIGHT, FORMAT_BOTTOM),
        (0, 0, 1, 2, 8)
    );
}

#[test]
fn channel_to_u16_scales_by_255() {
    assert_eq!(channel_to_u16(0), 0);
    assert_eq!(channel_to_u16(1), 255);
    assert_eq!(channel_to_u16(128), 32640);
    assert_eq!(channel_to_u16(255), 65025);
}

#[test]
fn unauthorized_operation_message() {
    assert_eq!(AcureError::UnauthorizedOperation.message(), "This operation is not authorized.");
}

#[test]
fn null_pointer_message() {
    assert_eq!(
        AcureError::NullPtrError(String::from("device")).message(),
        "Null pointer detected.\n'device'"
    );
}

#[test]
fn backend_error_message() {
    assert_eq!(
        AcureError::BackendError(Backend::WGL, String::from("no context")).message(),
        "Backend: 'WGL'\n'no context'"
    );
    assert_eq!(
        AcureError::BackendError(Backend::X11EGL, String::new()).message(),
        "Backend: 'X11EGL'\n''"
    );
}

#[test]
fn backend_names() {
    assert_eq!(Backend::D2D1.name(), "D2D1");
    assert_eq!(Backend::WGL.name(), "WGL");
    assert_eq!(Backend::X11EGL.name(), "X11EGL");
}

#[test]
fn command_clone_is_equal() {
    let radius = Some(2.5f64.to_bits());
    let commands = vec![
        Command::Clear(Color::ARGB(1, 2, 3, 4)),
        Command::FillRectangle(1, 2, 3, 4, radius, Color::ARGB(5, 6, 7, 8)),
        Command::FillRectangle(1, 2, 3, 4, None, Color::ARGB(5, 6, 7, 8)),
        Command::WriteString(1, 2, 3, 4, Color::ARGB(5, 6, 7, 8), String::from("text")),
    ];
    for command in &commands {
        assert_eq!(&command.clone(), command);
    }
}

#[test]
fn commands_differ_by_any_field() {
    let base = Command::FillRectangle(1, 2, 3, 4, None, Color::ARGB(5, 6, 7, 8));
    assert_ne!(base, Command::FillRectangle(0, 2, 3, 4, None, Color::ARGB(5, 6, 7, 8)));
    assert_ne!(base, Command::FillRectangle(1, 0, 3, 4, None, Color::ARGB(5, 6, 7, 8)));
    assert_ne!(base, Command::FillRectangle(1, 2, 0, 4, None, Color::ARGB(5, 6, 7, 8)));
    assert_ne!(base, Command::FillRectangle(1, 2, 3, 0, None, Color::ARGB(5, 6, 7, 8)));
    assert_ne!(base, Command::FillRectangle(1, 2, 3, 4, Some(0), Color::ARGB(5, 6, 7, 8)));
    assert_ne!(base, Command::FillRectangle(1, 2, 3, 4, None, Color::ARGB(5, 6, 7, 9)));
    assert_ne!(base, Command::Clear(Color::ARGB(5, 6, 7, 8)));
    assert_ne!(
        Command::FillRectangle(1, 2, 3, 4, Some(1), Color::ARGB(5, 6, 7, 8)),
        Command::FillRectangle(1, 2, 3, 4, Some(2), Color::ARGB(5, 6, 7, 8))
    );
    assert_ne!(
        Command::WriteString(1, 2, 3, 4, Color::ARGB(5, 6, 7, 8), String::from("a")),
        Command::WriteString(1, 2, 3, 4, Color::ARGB(5, 6, 7, 8), String::from("b"))
    );
}

#[test]
fn radius_bits_give_the_radius_back() {
    let command = Command::FillRectangle(0, 0, 8, 8, Some(1.5f64.to_bits()), Color::ARGB(0, 0, 0, 0));
    match command {
        Command::FillRectangle(_, _, _, _, Some(bits), _) => assert_eq!(f64::from_bits(bits), 1.5),
        _ => unreachable!(),
    }
}

#[test]
fn color_to_rgb16_takes_each_channel_from_its_own() {
    assert_eq!(color_to_rgb16(Color::ARGB(9, 1, 2, 3)), (255, 510, 765));
    assert_eq!(color_to_rgb16(Color::ARGB(0, 255, 0, 128)), (65025, 0, 32640));
}

#[test]
fn rectangle_corners_add_the_size_to_the_origin() {
    assert_eq!(
        rectangle_corners(0, 0, 10, 10),
        Some(Corners { left: 0, top: 0, right: 10, bottom: 10 })
    );
    assert_eq!(
        rectangle_corners(3, 4, 5, 6),
        Some(Corners { left: 3, top: 4, right: 8, bottom: 10 })
    );
    assert_eq!(
        rectangle_corners(u32::MAX - 5, 7, 5, u32::MAX - 7),
        Some(Corners { left: u32::MAX - 5, top: 7, right: u32::MAX, bottom: u32::MAX })
    );
}

#[test]
fn rectangle_corners_beyond_32_bits_are_none() {
    assert_eq!(rectangle_corners(u32::MAX, 0, 1, 0), None);
    assert_eq!(rectangle_corners(0, u32::MAX, 0, 1), None);
    assert_eq!(rectangle_corners(u32::MAX - 5, 0, 6, 0), None);
    assert_eq!(rectangle_corners(1, 1, u32::MAX, u32::MAX), None);
}
