use std::collections::hash_map::DefaultHasher;
use std::hash::{Hash, Hasher};

use medo::entry::{Entries, Entry, Image, Path, PathKind};
use medo::{Error, Frame};

fn hash_of(e: &Entry) -> u64 {
    let mut h = DefaultHasher::new();
    e.hash(&mut h);
    h.finish()
}

fn frame(v: u8) -> Frame {
    Frame::new(1, 2, 1, vec![v, v]).unwrap()
}

#[test]
fn path_requires_an_existing_file() {
    assert_eq!(Path::new("/data/a.jpg", PathKind::Missing).err(), Some(Error::NotFound));
    assert_eq!(Path::new("/data/a.jpg", PathKind::Directory).err(), Some(Error::NotFound));
    let p = Path::new("/data/a.jpg", PathKind::File).unwrap();
    assert_eq!(p.path(), "/data/a.jpg");
    assert_eq!(p.file_name(), "a.jpg");
}

#[test]
fn path_requires_a_file_name() {
    assert_eq!(Path::new("/", PathKind::File).err(), Some(Error::NotFound));
    assert_eq!(Path::new("/data/..", PathKind::File).err(), Some(Error::NotFound));
    assert_eq!(Path::new_owned(String::new(), PathKind::File).err(), Some(Error::NotFound));
    let p = Path::new_owned("frames/b.png/".to_string(), PathKind::File).unwrap();
    assert_eq!(p.file_name(), "b.png");
}

#[test]
fn entries_with_same_name_are_the_same_entry() {
    let a = Entry::new_image("light_01.jpg", frame(1)).unwrap();
    let b = Entry::new_image_owned("light_01.jpg".to_string(), frame(200)).unwrap();
    let c = Entry::new_path("/data/light_01.jpg", PathKind::File).unwrap();
    let d = Entry::new_image("light_02.jpg", frame(1)).unwrap();
    assert!(a == b);
    assert!(a == c);
    assert!(a != d);
    assert_eq!(hash_of(&a), hash_of(&b));
    assert_eq!(hash_of(&a), hash_of(&c));
    let mut set = std::collections::HashSet::new();
    set.insert(a);
    assert!(!set.insert(b));
    assert!(!set.insert(c));
    assert!(set.insert(d));
}

#[test]
fn entry_name_and_image() {
    let p = Entry::new_path_owned("/x/y/frame.tif".to_string(), PathKind::File).unwrap();
    assert_eq!(p.name(), "frame.tif");
    assert!(p.read_image().is_none());
    let i = Entry::new_image("mem", frame(7)).unwrap();
    assert_eq!(i.name(), "mem");
    assert_eq!(i.read_image().unwrap().data, vec![7, 7]);
    assert_eq!(Entry::new_path("/x/", PathKind::Directory).err(), Some(Error::NotFound));
}

#[test]
fn read_into_image_keeps_the_image() {
    let mut e = Entry::new_path("/x/frame.tif", PathKind::File).unwrap();
    e.read_into_image(frame(9));
    assert_eq!(e.name(), "frame.tif");
    assert_eq!(e.read_image().unwrap().data, vec![9, 9]);
    // Already in memory: nothing changes
    e.read_into_image(frame(3));
    assert_eq!(e.read_image().unwrap().data, vec![9, 9]);
}

#[test]
fn image_entry_replace() {
    let mut i = Image::new("a", frame(1)).unwrap();
    i.replace_image(frame(2));
    assert_eq!(i.name(), "a");
    assert_eq!(i.image().data, vec![2, 2]);
    assert_eq!(i.into_image().data, vec![2, 2]);
}

#[test]
fn entries_group_from_list() {
    assert!(matches!(Entries::new(vec![]), Err(Error::Other(_))));
    let a = Entry::new_image("a", frame(1)).unwrap();
    let b = Entry::new_image("b", frame(2)).unwrap();
    let c = Entry::new_image("c", frame(3)).unwrap();
    let g = Entries::new(vec![a, b, c]).unwrap();
    assert_eq!(g.reference.name(), "a");
    let names: Vec<String> = g.entries.iter().map(|e| e.name()).collect();
    assert_eq!(names, vec!["b", "c"]);
}
