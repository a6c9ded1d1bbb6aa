use matter::error::Error;
use matter::ib::{AttrPath, CmdPath};
use matter::codec::{FromTLV, ToTLV};
use matter::path::GenericPath;
use matter::tlv::TagType;
use matter::writer::TLVWriter;

fn all_paths() -> Vec<GenericPath> {
    let mut v = Vec::new();
    for e in [None, Some(7u16)] {
        for c in [None, Some(0x1du32)] {
            for l in [None, Some(3u32)] {
                v.push(GenericPath::new(e, c, l));
            }
        }
    }
    v
}

#[test]
fn wildcard_exactly_when_not_concrete() {
    for p in all_paths() {
        assert_eq!(p.is_wildcard(), !p.not_wildcard().is_ok());
    }
}

#[test]
fn concrete_path_gives_its_triple() {
    let p = GenericPath::new(Some(1), Some(0x1d), Some(3));
    assert!(!p.is_wildcard());
    assert_eq!(p.not_wildcard(), Ok((1, 0x1d, 3)));
}

#[test]
fn wildcard_path_is_invalid() {
    assert_eq!(GenericPath::new(None, Some(6), Some(0)).not_wildcard(), Err(Error::Invalid));
    assert_eq!(GenericPath::new(Some(1), None, Some(0)).not_wildcard(), Err(Error::Invalid));
    assert_eq!(GenericPath::new(Some(1), Some(6), None).not_wildcard(), Err(Error::Invalid));
    assert_eq!(GenericPath::default().not_wildcard(), Err(Error::Invalid));
    assert!(GenericPath::default().is_wildcard());
}

#[test]
fn attr_path_round_trips_a_16_bit_leaf() {
    for p in all_paths() {
        assert_eq!(AttrPath::new(&p).to_gp(), p);
    }
    let top = GenericPath::new(Some(2), Some(8), Some(0xffff));
    assert_eq!(AttrPath::new(&top).to_gp(), top);
}

#[test]
fn attr_path_leaves_the_rest_unset() {
    let a = AttrPath::new(&GenericPath::new(Some(2), Some(8), Some(5)));
    assert_eq!(a.endpoint, Some(2));
    assert_eq!(a.cluster, Some(8));
    assert_eq!(a.attr, Some(5));
    assert_eq!(a.tag_compression, None);
    assert_eq!(a.node, None);
    assert_eq!(a.list_index, None);
}

#[test]
fn attr_path_truncates_a_wide_leaf() {
    let wide = GenericPath::new(Some(2), Some(8), Some(0x0001_2345));
    let a = AttrPath::new(&wide);
    assert_eq!(a.attr, Some(0x2345));
    assert_eq!(a.to_gp(), GenericPath::new(Some(2), Some(8), Some(0x2345)));
    let a = AttrPath::new(&GenericPath::new(None, None, Some(0x0001_0000)));
    assert_eq!(a.attr, Some(0));
}

#[test]
fn cmd_path_new_widens_the_command() {
    let c = CmdPath::new(Some(1), Some(6), Some(0xfffe));
    assert_eq!(c.path, GenericPath::new(Some(1), Some(6), Some(0xfffe)));
    assert_eq!(CmdPath::new(None, None, None).path, GenericPath::default());
}

#[test]
fn cmd_path_without_command_is_not_found() {
    for e in [None, Some(0u16), Some(9)] {
        for c in [None, Some(6u32), Some(0xffff_ffff)] {
            let mut tw = TLVWriter::new();
            GenericPath::new(e, c, None).to_tlv(&mut tw, TagType::Context(0)).unwrap();
            let r = CmdPath::from_tlv(&tw.elements()[0]);
            assert_eq!(r, Err(Error::CommandNotFound));
        }
    }
}

#[test]
fn cmd_path_with_command_round_trips() {
    let c = CmdPath::new(Some(1), None, Some(2));
    let mut tw = TLVWriter::new();
    c.to_tlv(&mut tw, TagType::Anonymous).unwrap();
    assert_eq!(CmdPath::from_tlv(&tw.elements()[0]), Ok(c));
}
