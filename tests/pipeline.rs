use medo::entry::{Entries, Entry, Image, PathKind};
use medo::pipeline::{alignment, sharpen, stacking, Pipeline, Run, Stage};
use medo::{Error, Frame, Group, Medo};

fn frame(v: u8) -> Frame {
    Frame::new(2, 2, 1, vec![v; 4]).unwrap()
}

fn entry(name: &str, v: u8) -> Entry {
    Entry::new_image(name, frame(v)).unwrap()
}

fn names(g: &Entries) -> Vec<String> {
    g.entries.iter().map(|e| e.name()).collect()
}

#[test]
fn alignment_drops_the_corrupt_peer() {
    let reference = entry("ref.jpg", 0);
    let aligned = vec![
        Entry::new_path("/tmp/medo/a.jpg", PathKind::File),
        Entry::new_path("/tmp/medo/b.jpg", PathKind::File),
        Err(Error::Decode),
        Entry::new_path("/tmp/medo/d.jpg", PathKind::File),
        Entry::new_path("/tmp/medo/e.jpg", PathKind::File),
    ];
    let out = alignment::process(reference, aligned);
    assert_eq!(out.reference.name(), "ref.jpg");
    assert_eq!(out.entries.len(), 4);
    assert_eq!(names(&out), vec!["a.jpg", "b.jpg", "d.jpg", "e.jpg"]);
}

#[test]
fn alignment_output_paths() {
    let dir = medo::util::temp_dir();
    assert_eq!(dir, "/tmp/medo");
    assert_eq!(alignment::output_path(&dir, "light_3.jpg"), "/tmp/medo/light_3.jpg");
}

#[test]
fn sharpen_keeps_survivors() {
    let out = sharpen::process(
        Ok(entry("r", 1)),
        vec![Ok(entry("a", 2)), Err(Error::VisionPrimitive), Ok(entry("c", 3))],
    )
    .unwrap();
    assert_eq!(out.reference.name(), "r");
    assert_eq!(names(&out), vec!["a", "c"]);
}

#[test]
fn sharpen_replaces_a_failed_reference() {
    let out = sharpen::process(
        Err(Error::VisionPrimitive),
        vec![Err(Error::Decode), Ok(entry("b", 2)), Ok(entry("c", 3))],
    )
    .unwrap();
    assert_eq!(out.reference.name(), "b");
    assert_eq!(names(&out), vec!["c"]);
    let none = sharpen::process(Err(Error::Decode), vec![Err(Error::Decode)]);
    assert_eq!(none.err(), Some(Error::StageExhausted));
}

#[test]
fn stacking_folds_reference_and_peers() {
    let frames = vec![
        Image::new("ref", frame(10)),
        Image::new("a", frame(20)),
        Err(Error::Decode),
        Image::new("odd", Frame::new(1, 1, 1, vec![255]).unwrap()),
        Image::new("c", frame(60)),
    ];
    let out = stacking::process(frames).unwrap();
    assert!(out.entries.is_empty());
    assert_eq!(out.reference.name(), "ref");
    assert_eq!(out.reference.read_image().unwrap().data, vec![30; 4]);
}

#[test]
fn stacking_seeds_with_the_first_readable_frame() {
    let frames = vec![Err(Error::Decode), Image::new("a", frame(3)), Image::new("b", frame(4))];
    let out = stacking::process(frames).unwrap();
    assert_eq!(out.reference.name(), "a");
    assert_eq!(out.reference.read_image().unwrap().data, vec![4; 4]);
}

#[test]
fn stacking_with_nothing_to_fold_is_fatal() {
    assert_eq!(stacking::process(vec![]).err(), Some(Error::StageExhausted));
    let frames = vec![Err(Error::Decode), Err(Error::NotFound)];
    assert_eq!(stacking::process(frames).err(), Some(Error::StageExhausted));
}

#[test]
fn pipeline_runs_stages_in_order() {
    let pipeline = Pipeline {
        stages: vec![
            Stage::Alignment(Default::default()),
            Stage::Sharpen(Default::default()),
            Stage::Stacking(Default::default()),
        ],
    };
    let input = Entries::new(vec![entry("r", 1)]).unwrap();
    let run = pipeline.start(input);
    let g = match run {
        Run::Stage(0, g) => g,
        _ => panic!("expected the first stage"),
    };
    let g = match pipeline.advance(0, Ok(g)) {
        Run::Stage(1, g) => g,
        _ => panic!("expected the second stage"),
    };
    match pipeline.advance(1, Err(Error::StageExhausted)) {
        Run::Done(Err(Error::StageExhausted)) => {}
        _ => panic!("expected the run to end"),
    }
    match pipeline.advance(2, Ok(g)) {
        Run::Done(Ok(g)) => assert_eq!(g.reference.name(), "r"),
        _ => panic!("expected the run to end"),
    }
}

#[test]
fn empty_pipeline_hands_back_its_input() {
    let pipeline = Pipeline { stages: vec![] };
    let input = Entries::new(vec![entry("r", 1), entry("p", 2)]).unwrap();
    match pipeline.start(input) {
        Run::Done(Ok(g)) => assert_eq!(names(&g), vec!["p"]),
        _ => panic!("expected the run to end"),
    }
}

#[test]
fn group_keeps_the_last_output() {
    let mut group = Group {
        name: "default".to_string(),
        pipeline: Pipeline { stages: vec![] },
        entries: Entries::new(vec![entry("r", 1)]).unwrap(),
        pipeline_output: None,
    };
    assert_eq!(group.record(Err(Error::StageExhausted)), Err(Error::StageExhausted));
    assert!(group.pipeline_output.is_none());
    group.record(Ok(Entries::new(vec![entry("s", 2)]).unwrap())).unwrap();
    assert_eq!(group.pipeline_output.as_ref().unwrap().reference.name(), "s");
    assert!(Medo::new().groups.is_empty());
}
