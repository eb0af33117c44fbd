use clive::cli::Args;
use clive::geometry::Rectangle;
use clive::program::{draw_steps, DrawStep, Effect, FolderOutcome, MoveError, Program, Size, Transfer};
use clive::ui::{Event, Key, State};

fn program(paths: &[&str]) -> Program {
    Program::init(Args {
        files: paths.iter().map(|s| s.to_string()).collect(),
        dest_folder: "keep".to_string(),
    })
}

fn paths(program: &Program) -> Vec<String> {
    program.images().clone()
}

fn is_render(effect: &Effect, path: &str) -> bool {
    matches!(effect, Effect::Render(p) if p == path)
}

fn is_idle(effect: &Effect) -> bool {
    matches!(effect, Effect::Idle)
}

fn moved(result: Result<Option<Transfer>, MoveError>) -> Transfer {
    match result {
        Ok(Some(transfer)) => transfer,
        _ => panic!("the image was not moved"),
    }
}

#[test]
fn init_shows_the_first_image() {
    let p = program(&["a.png", "b.png"]);
    assert_eq!(p.len(), 2);
    assert!(!p.is_empty());
    assert_eq!(p.index(), 0);
    assert_eq!(p.current(), Some(&"a.png".to_string()));
    assert_eq!(p.dest_folder(), "keep");
    assert_eq!(p.ui_state(), State { left_shift: false, right_shift: false });
    assert_eq!(paths(&p), vec!["a.png".to_string(), "b.png".to_string()]);
    assert!(is_render(&p.render(), "a.png"));
}

#[test]
fn next_goes_forward_by_the_step() {
    let mut p = program(&["a", "b", "c", "d", "e"]);
    assert!(is_render(&p.increment(1), "b"));
    assert_eq!(p.index(), 1);
    assert!(is_render(&p.increment(3), "e"));
    assert_eq!(p.index(), 4);
}

#[test]
fn next_past_the_end_does_not_move() {
    let mut p = program(&["a", "b", "c"]);
    p.increment(1);
    assert!(is_render(&p.increment(2), "b"));
    assert_eq!(p.index(), 1);
    assert!(is_render(&p.increment(10), "b"));
    assert_eq!(p.index(), 1);
    assert!(is_render(&p.increment(usize::MAX), "b"));
    assert_eq!(p.index(), 1);
    assert!(is_render(&p.increment(1), "c"));
    assert!(is_render(&p.increment(1), "c"));
    assert_eq!(p.index(), 2);
}

#[test]
fn next_on_a_single_image_draws_it_again() {
    let mut p = program(&["only.png"]);
    assert!(is_render(&p.increment(1), "only.png"));
    assert_eq!(p.index(), 0);
    assert!(is_render(&p.increment(0), "only.png"));
    assert_eq!(p.index(), 0);
}

#[test]
fn prev_goes_back_by_the_step() {
    let mut p = program(&["a", "b", "c", "d", "e"]);
    p.last();
    assert!(is_render(&p.decrement(1), "d"));
    assert_eq!(p.index(), 3);
    assert!(is_render(&p.decrement(3), "a"));
    assert_eq!(p.index(), 0);
}

#[test]
fn prev_past_the_start_goes_to_the_first_image() {
    let mut p = program(&["a", "b", "c", "d", "e"]);
    p.increment(3);
    assert!(is_render(&p.decrement(10), "a"));
    assert_eq!(p.index(), 0);
    assert!(is_render(&p.decrement(1), "a"));
    assert_eq!(p.index(), 0);
    p.increment(2);
    assert!(is_render(&p.decrement(usize::MAX), "a"));
    assert_eq!(p.index(), 0);
}

#[test]
fn first_and_last_go_to_the_ends() {
    let mut p = program(&["a", "b", "c", "d"]);
    assert!(is_render(&p.last(), "d"));
    assert_eq!(p.index(), 3);
    assert!(is_render(&p.first(), "a"));
    assert_eq!(p.index(), 0);
}

#[test]
fn index_stays_in_the_list_under_any_navigation() {
    let mut p = program(&["a", "b", "c", "d", "e", "f", "g"]);
    let steps: [usize; 6] = [0, 1, 2, 5, 10, 700];
    for round in 0..4 {
        for step in steps {
            for kind in 0..4 {
                match (kind + round) % 4 {
                    0 => p.increment(step),
                    1 => p.decrement(step),
                    2 => p.last(),
                    _ => p.first(),
                };
                assert!(p.index() < p.len());
                assert_eq!(p.len(), 7);
                p.increment(step + round);
                assert!(p.index() < p.len());
            }
        }
    }
}

#[test]
fn empty_list_is_left_alone() {
    let mut p = program(&[]);
    assert!(p.is_empty());
    assert_eq!(p.current(), None);
    assert!(is_idle(&p.render()));
    assert!(is_idle(&p.increment(1)));
    assert!(is_idle(&p.increment(10)));
    assert!(is_idle(&p.decrement(1)));
    assert!(is_idle(&p.decrement(10)));
    assert!(matches!(p.move_image(FolderOutcome::Created), Ok(None)));
    assert!(matches!(p.move_image(FolderOutcome::AlreadyExists), Ok(None)));
    assert!(matches!(p.move_image(FolderOutcome::Failed("denied".to_string())), Ok(None)));
    assert!(matches!(p.move_as(FolderOutcome::Created, Some("a.png".to_string())), Ok(None)));
    assert!(matches!(p.move_as(FolderOutcome::Created, None), Ok(None)));
    assert!(is_idle(&p.first()));
    assert!(is_idle(&p.last()));
    assert!(is_idle(&p.run(&Event::KeyDown(Key::Move))));
    assert!(is_idle(&p.run(&Event::KeyDown(Key::Next))));
    assert!(is_idle(&p.run(&Event::WindowExposed)));
    assert_eq!(p.len(), 0);
    assert_eq!(p.index(), 0);
    assert_eq!(p.dest_folder(), "keep");
}

#[test]
fn moving_the_middle_image_shows_the_one_that_followed() {
    let mut p = program(&["pics/one.png", "pics/two.png", "pics/three.png"]);
    p.increment(1);
    let transfer = moved(p.move_image(FolderOutcome::Created));
    assert_eq!(transfer.from, "pics/two.png");
    assert_eq!(transfer.to, "keep/two.png");
    assert_eq!(p.len(), 2);
    assert_eq!(p.index(), 1);
    assert_eq!(p.current(), Some(&"pics/three.png".to_string()));
    assert_eq!(paths(&p), vec!["pics/one.png".to_string(), "pics/three.png".to_string()]);
}

#[test]
fn moving_the_last_image_shows_the_one_before() {
    let mut p = program(&["a.png", "b.png", "c.png", "d.png"]);
    p.last();
    let transfer = moved(p.move_image(FolderOutcome::AlreadyExists));
    assert_eq!(transfer.from, "d.png");
    assert_eq!(transfer.to, "keep/d.png");
    assert_eq!(p.len(), 3);
    assert_eq!(p.index(), 2);
    assert_eq!(p.current(), Some(&"c.png".to_string()));
}

#[test]
fn moving_the_first_image_keeps_the_index() {
    let mut p = program(&["a.png", "b.png"]);
    let transfer = moved(p.move_image(FolderOutcome::Created));
    assert_eq!(transfer.from, "a.png");
    assert_eq!(p.len(), 1);
    assert_eq!(p.index(), 0);
    assert_eq!(p.current(), Some(&"b.png".to_string()));
}

#[test]
fn moving_the_only_image_empties_the_list() {
    let mut p = program(&["/tmp/in/a.png"]);
    let transfer = moved(p.move_image(FolderOutcome::Created));
    assert_eq!(transfer.from, "/tmp/in/a.png");
    assert_eq!(transfer.to, "keep/a.png");
    assert!(p.is_empty());
    assert_eq!(p.index(), 0);
    assert_eq!(p.current(), None);
    assert!(matches!(p.finish_move(Ok(())), Ok(Effect::Idle)));
}

#[test]
fn moving_never_moves_the_index_forward() {
    let mut p = program(&["a.png", "b.png", "c.png", "d.png", "e.png"]);
    p.increment(2);
    let mut len = p.len();
    while !p.is_empty() {
        let before = p.index();
        moved(p.move_image(FolderOutcome::Created));
        assert_eq!(p.len(), len - 1);
        assert!(p.index() <= before);
        assert!(p.is_empty() || p.index() < p.len());
        len = p.len();
    }
}

#[test]
fn folder_that_cannot_be_created_stops_the_move() {
    let mut p = program(&["a.png", "b.png"]);
    p.increment(1);
    let result = p.move_image(FolderOutcome::Failed("permission denied".to_string()));
    match result {
        Err(MoveError::Folder(why)) => assert_eq!(why, "permission denied"),
        _ => panic!("the move did not fail on the folder"),
    }
    assert_eq!(p.len(), 2);
    assert_eq!(p.index(), 1);
    assert_eq!(paths(&p), vec!["a.png".to_string(), "b.png".to_string()]);
}

#[test]
fn failed_folder_is_reported_before_a_missing_file_name() {
    let mut p = program(&[".."]);
    assert!(matches!(
        p.move_image(FolderOutcome::Failed("no".to_string())),
        Err(MoveError::Folder(_))
    ));
    assert_eq!(p.len(), 1);
}

#[test]
fn path_without_file_name_stops_the_move() {
    for path in ["..", "/", "pics/..", ""] {
        let mut p = program(&["a.png", path, "b.png"]);
        p.increment(1);
        assert!(matches!(p.move_image(FolderOutcome::Created), Err(MoveError::NoFileName)));
        assert_eq!(p.len(), 3);
        assert_eq!(p.index(), 1);
        assert_eq!(paths(&p), vec!["a.png".to_string(), path.to_string(), "b.png".to_string()]);
    }
}

#[test]
fn file_keeps_its_name_in_the_destination_folder() {
    let mut p = Program::init(Args {
        files: vec!["/home/me/pics/sub/cat.final.JPG".to_string(), "dog.png".to_string(), "x/y/".to_string()],
        dest_folder: "/home/me/keep".to_string(),
    });
    let transfer = moved(p.move_image(FolderOutcome::AlreadyExists));
    assert_eq!(transfer.from, "/home/me/pics/sub/cat.final.JPG");
    assert_eq!(transfer.to, "/home/me/keep/cat.final.JPG");
    let transfer = moved(p.move_image(FolderOutcome::AlreadyExists));
    assert_eq!(transfer.from, "dog.png");
    assert_eq!(transfer.to, "/home/me/keep/dog.png");
    let transfer = moved(p.move_image(FolderOutcome::AlreadyExists));
    assert_eq!(transfer.from, "x/y/");
    assert_eq!(transfer.to, "/home/me/keep/y");
}

#[test]
fn move_as_takes_the_name_it_is_given() {
    let mut p = program(&["a.png", "b.png", "c.png"]);
    let transfer = moved(p.move_as(FolderOutcome::Created, Some("other.png".to_string())));
    assert_eq!(transfer.from, "a.png");
    assert_eq!(transfer.to, "keep/other.png");
    assert_eq!(paths(&p), vec!["b.png".to_string(), "c.png".to_string()]);
    assert!(matches!(p.move_as(FolderOutcome::Created, None), Err(MoveError::NoFileName)));
    assert!(matches!(
        p.move_as(FolderOutcome::Failed("full".to_string()), Some("b.png".to_string())),
        Err(MoveError::Folder(_))
    ));
    assert_eq!(p.len(), 2);
    assert_eq!(p.index(), 0);
}

#[test]
fn finish_move_draws_or_reports() {
    let mut p = program(&["a.png", "b.png"]);
    moved(p.move_image(FolderOutcome::Created));
    match p.finish_move(Ok(())) {
        Ok(effect) => assert!(is_render(&effect, "b.png")),
        Err(_) => panic!("a finished move was reported as failed"),
    }
    match p.finish_move(Err("disk full".to_string())) {
        Err(MoveError::Transfer(why)) => assert_eq!(why, "disk full"),
        _ => panic!("a failed move was not reported"),
    }
    assert_eq!(p.len(), 1);
}

#[test]
fn errors_have_messages() {
    assert_eq!(MoveError::Folder("denied".to_string()).message(), "denied");
    assert_eq!(MoveError::NoFileName.message(), "failed to read filename for current image");
    assert_eq!(MoveError::Transfer("disk full".to_string()).message(), "disk full");
}

#[test]
fn run_follows_the_events() {
    let names: Vec<String> = (0..25).map(|i| format!("{}.png", i)).collect();
    let mut p = Program::init(Args { files: names, dest_folder: "keep".to_string() });
    assert!(is_render(&p.run(&Event::KeyDown(Key::Next)), "1.png"));
    assert!(is_idle(&p.run(&Event::KeyUp(Key::Next))));
    assert!(is_idle(&p.run(&Event::KeyDown(Key::LeftShift))));
    assert_eq!(p.ui_state(), State { left_shift: true, right_shift: false });
    assert!(is_render(&p.run(&Event::KeyDown(Key::Next)), "11.png"));
    assert!(is_render(&p.run(&Event::KeyDown(Key::Next)), "21.png"));
    assert!(is_render(&p.run(&Event::KeyDown(Key::Next)), "21.png"));
    assert_eq!(p.index(), 21);
    assert!(is_idle(&p.run(&Event::KeyUp(Key::LeftShift))));
    assert!(is_render(&p.run(&Event::KeyDown(Key::Prev)), "20.png"));
    assert!(is_idle(&p.run(&Event::KeyDown(Key::RightShift))));
    assert!(is_render(&p.run(&Event::KeyDown(Key::Prev)), "10.png"));
    assert!(is_render(&p.run(&Event::KeyDown(Key::Prev)), "0.png"));
    assert!(is_render(&p.run(&Event::KeyDown(Key::Next)), "10.png"));
    assert!(is_render(&p.run(&Event::KeyDown(Key::Prev)), "0.png"));
    assert!(is_render(&p.run(&Event::KeyDown(Key::Next)), "10.png"));
    assert!(is_render(&p.run(&Event::KeyDown(Key::Last)), "24.png"));
    assert!(is_render(&p.run(&Event::KeyDown(Key::Prev)), "14.png"));
    assert!(is_render(&p.run(&Event::KeyDown(Key::First)), "0.png"));
    assert!(is_render(&p.run(&Event::WindowResized), "0.png"));
    assert!(is_render(&p.run(&Event::WindowExposed), "0.png"));
    assert!(is_idle(&p.run(&Event::Other)));
    assert!(is_idle(&p.run(&Event::KeyDown(Key::Other))));
    assert!(matches!(p.run(&Event::KeyDown(Key::Move)), Effect::EnsureFolder(f) if f == "keep"));
    assert_eq!(p.len(), 25);
    assert!(matches!(p.run(&Event::Quit), Effect::Quit));
    assert!(matches!(p.run(&Event::WindowClose), Effect::Quit));
    assert_eq!(p.index(), 0);
    assert_eq!(p.ui_state(), State { left_shift: false, right_shift: true });
}

#[test]
fn image_that_was_not_loaded_is_not_drawn() {
    let steps = draw_steps(None, Size { width: 800, height: 600 });
    assert!(steps.is_empty());
    let steps = draw_steps(None, Size { width: 0, height: 0 });
    assert!(steps.is_empty());
}

#[test]
fn loaded_image_is_drawn_in_three_steps() {
    let steps = draw_steps(Some(Size { width: 2000, height: 500 }), Size { width: 800, height: 600 });
    assert_eq!(
        steps,
        vec![
            DrawStep::Clear,
            DrawStep::Copy(Rectangle { x: 0, y: 200, width: 800, height: 200 }),
            DrawStep::Present,
        ]
    );
    let steps = draw_steps(Some(Size { width: 800, height: 600 }), Size { width: 1000, height: 1000 });
    assert_eq!(
        steps,
        vec![
            DrawStep::Clear,
            DrawStep::Copy(Rectangle { x: 100, y: 200, width: 800, height: 600 }),
            DrawStep::Present,
        ]
    );
}
