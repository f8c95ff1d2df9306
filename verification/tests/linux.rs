use std::collections::BTreeMap;
use sysctl::consts::{CTLFLAG_RD, CTLFLAG_RW};
use sysctl::linux::ctl::Ctl;
use sysctl::linux::ctl_iter::CtlIter;
use sysctl::linux::file::{Access, Answer, Outcome, Query, Step};
use sysctl::linux::funcs::{fix_path, next_ctl, set_value, string_to_name, value};
use sysctl::{CtlType, CtlValue, IoFailure, IoKind, SysctlError};

struct File {
    content: String,
    is_dir: bool,
    readonly: bool,
}

/// A file system that is a table, with a log of what it was asked.
struct Files {
    files: BTreeMap<String, File>,
    log: Vec<Query>,
}

fn files() -> Files {
    let mut files = BTreeMap::new();
    let mut add = |path: &str, content: &str, is_dir: bool, readonly: bool| {
        files.insert(
            path.to_string(),
            File {
                content: content.to_string(),
                is_dir,
                readonly,
            },
        );
    };
    add("/proc/sys", "", true, false);
    add("/proc/sys/kernel", "", true, false);
    add("/proc/sys/kernel/ostype", "Linux\n", false, true);
    add("/proc/sys/kernel/hostname", "  box \n", false, false);
    add("/proc/sys/net", "", true, false);
    add("/proc/sys/net/ipv4", "", true, false);
    add("/proc/sys/net/ipv4/ip_forward", "0\n", false, false);
    Files {
        files,
        log: vec![],
    }
}

fn not_found() -> IoFailure {
    IoFailure {
        kind: IoKind::NotFound,
        code: Some(2),
    }
}

impl Files {
    fn ask(&mut self, query: &Query) -> Result<Answer, IoFailure> {
        self.log.push(query.clone());
        let file = self.files.get_mut(&query.path).ok_or(not_found())?;
        let mut answer = Answer {
            content: String::new(),
            is_dir: file.is_dir,
            readonly: file.readonly,
        };
        match &query.access {
            Access::Stat => {}
            Access::Read => {
                if file.is_dir {
                    return Err(IoFailure {
                        kind: IoKind::Other,
                        code: Some(21),
                    });
                }
                answer.content = file.content.clone();
            }
            Access::Write(bytes) => {
                if file.readonly || file.is_dir {
                    return Err(IoFailure {
                        kind: IoKind::Other,
                        code: Some(13),
                    });
                }
                if !bytes.is_empty() {
                    file.content = String::from_utf8(bytes.clone()).unwrap();
                }
            }
        }
        Ok(answer)
    }

    fn run(&mut self, first: Step) -> Result<Outcome, SysctlError> {
        let mut step = first;
        loop {
            match step {
                Step::Done(result) => return result,
                Step::Ask { op, query } => {
                    let reply = self.ask(&query);
                    step = op.step(reply);
                }
            }
        }
    }

    fn entries(&self, root: &str) -> Vec<Option<String>> {
        self.files
            .keys()
            .filter(|path| path.starts_with(root))
            .map(|path| Some(path.clone()))
            .collect()
    }
}

#[test]
fn fix_path_takes_names_and_paths() {
    assert_eq!(fix_path("kernel.ostype"), "/proc/sys/kernel/ostype");
    assert_eq!(fix_path("net.ipv4.ip_forward"), "/proc/sys/net/ipv4/ip_forward");
    assert_eq!(fix_path("kernel/ostype"), "/proc/sys/kernel/ostype");
    assert_eq!(
        fix_path("net/ipv4/conf/eth0.100/forwarding"),
        "/proc/sys/net/ipv4/conf/eth0.100/forwarding"
    );
    assert_eq!(
        fix_path("/proc/sys/net/ipv4/ip_forward"),
        "/proc/sys/net/ipv4/ip_forward"
    );
    assert_eq!(fix_path("/proc/sys"), "/proc/sys");
    assert_eq!(fix_path("/proc/system.x"), "/proc/system.x");
    assert_eq!(fix_path("/proc/cpuinfo"), "/proc/sys//proc/cpuinfo");
    assert_eq!(fix_path(""), "/proc/sys/");
    assert_eq!(fix_path("single"), "/proc/sys/single");
}

#[test]
fn fix_path_changes_nothing_the_second_time() {
    for name in ["kernel.ostype", "a/b.c", "/proc/sys/x.y", "", "net.ipv4.ip_forward"] {
        let once = fix_path(name);
        assert_eq!(fix_path(&once), once);
    }
}

#[test]
fn names_of_paths() {
    assert_eq!(string_to_name("/proc/sys/kernel/ostype"), "kernel.ostype");
    assert_eq!(string_to_name("kernel.ostype"), "kernel.ostype");
    assert_eq!(string_to_name("net/ipv4/ip_forward"), "net.ipv4.ip_forward");
    assert_eq!(string_to_name("/proc/sys/"), "");
    assert_eq!(string_to_name("/proc/sys"), ".proc.sys");
    assert_eq!(string_to_name(""), "");
}

#[test]
fn a_handle_knows_its_name_and_its_path() {
    let ctl = Ctl::new("kernel.ostype").unwrap();
    assert_eq!(ctl.name(), Ok("kernel.ostype".to_string()));
    assert_eq!(ctl.path(), "/proc/sys/kernel/ostype");
    let ctl = Ctl::new("/proc/sys/net/ipv4/ip_forward").unwrap();
    assert_eq!(ctl.name(), Ok("net.ipv4.ip_forward".to_string()));
    assert_eq!(ctl.path(), "/proc/sys/net/ipv4/ip_forward");
    assert_eq!(ctl, Ctl::new("net.ipv4.ip_forward").unwrap());
    assert_eq!(ctl.description(), Ok("[N/A]".to_string()));
    assert_eq!(ctl.value_as::<u32>(), Err(SysctlError::NotSupported));
    assert_eq!(next_ctl(&ctl), Ctl::new(""));
    assert_eq!(next_ctl(&ctl).unwrap().name(), Ok("".to_string()));
}

#[test]
fn a_value_is_the_text_of_the_file_without_the_space_around_it() {
    let mut files = files();
    assert_eq!(
        files.run(value("kernel.ostype")),
        Ok(Outcome::Value(CtlValue::String("Linux".into())))
    );
    assert_eq!(
        files.run(value("/proc/sys/kernel/hostname")),
        Ok(Outcome::Value(CtlValue::String("box".into())))
    );
    let ctl = Ctl::new("net.ipv4.ip_forward").unwrap();
    assert_eq!(
        files.run(ctl.value()),
        Ok(Outcome::Value(CtlValue::String("0".into())))
    );
    assert_eq!(files.run(ctl.value_string()), Ok(Outcome::Text("0".into())));
    assert_eq!(files.log.len(), 4);
    assert!(files.log.iter().all(|q| q.access == Access::Read));
    assert_eq!(files.log[0].path, "/proc/sys/kernel/ostype");
}

#[test]
fn white_space_of_every_kind_is_trimmed() {
    let mut files = files();
    files.files.insert(
        "/proc/sys/odd".to_string(),
        File {
            content: "\u{a0}\t\u{3000} a \u{2003} b\r\n\u{85}\u{2028}\u{200a}".to_string(),
            is_dir: false,
            readonly: true,
        },
    );
    assert_eq!(
        files.run(value("odd")),
        Ok(Outcome::Value(CtlValue::String("a \u{2003} b".into())))
    );
    files.files.insert(
        "/proc/sys/blank".to_string(),
        File {
            content: " \n\t ".to_string(),
            is_dir: false,
            readonly: true,
        },
    );
    assert_eq!(
        files.run(value("blank")),
        Ok(Outcome::Value(CtlValue::String("".into())))
    );
    // a zero width space is no white space
    files.files.insert(
        "/proc/sys/zero".to_string(),
        File {
            content: "\u{200b}x\u{200b}".to_string(),
            is_dir: false,
            readonly: true,
        },
    );
    assert_eq!(
        files.run(value("zero")),
        Ok(Outcome::Value(CtlValue::String("\u{200b}x\u{200b}".into())))
    );
}

#[test]
fn a_file_that_is_not_there_is_not_found() {
    let mut files = files();
    assert_eq!(
        files.run(value("this.sysctl.does.not.exist")),
        Err(SysctlError::NotFound(
            "/proc/sys/this/sysctl/does/not/exist".into()
        ))
    );
    assert_eq!(
        files.run(set_value("no.such", CtlValue::String("1".into()))),
        Err(SysctlError::NotFound("/proc/sys/no/such".into()))
    );
    // another failure is handed on as it is
    assert_eq!(
        files.run(value("kernel")),
        Err(SysctlError::IoError(IoFailure {
            kind: IoKind::Other,
            code: Some(21)
        }))
    );
    // a look at a file hands every failure on as it is
    let ctl = Ctl::new("no.such").unwrap();
    assert_eq!(
        files.run(ctl.value_type()),
        Err(SysctlError::IoError(not_found()))
    );
    assert_eq!(files.run(ctl.info()), Err(SysctlError::IoError(not_found())));
}

#[test]
fn text_is_written_and_read_back() {
    let mut files = files();
    assert_eq!(
        files.run(set_value(
            "net.ipv4.ip_forward",
            CtlValue::String("1\n".into())
        )),
        Ok(Outcome::Value(CtlValue::String("1".into())))
    );
    assert_eq!(files.log.len(), 2);
    assert_eq!(files.log[0].access, Access::Write(b"1\n".to_vec()));
    assert_eq!(files.log[1].access, Access::Read);
    assert_eq!(files.log[1].path, "/proc/sys/net/ipv4/ip_forward");

    let ctl = Ctl::new("kernel.hostname").unwrap();
    assert_eq!(
        files.run(ctl.set_value(CtlValue::String("name".into()))),
        Ok(Outcome::Value(CtlValue::String("name".into())))
    );
    // written as text, the value is read twice: once to see it, once as text
    assert_eq!(
        files.run(ctl.set_value_string(" other ")),
        Ok(Outcome::Text("other".into()))
    );
    assert_eq!(files.log.len(), 7);
    assert_eq!(files.log[4].access, Access::Write(b" other ".to_vec()));
    assert_eq!(files.log[5].access, Access::Read);
    assert_eq!(files.log[6].access, Access::Read);
}

#[test]
fn only_text_is_written() {
    let mut files = files();
    for v in [
        CtlValue::Int(1),
        CtlValue::Nil,
        CtlValue::Struct(vec![49]),
        CtlValue::U8(1),
    ] {
        assert_eq!(
            files.run(set_value("net.ipv4.ip_forward", v)),
            Err(SysctlError::IoError(IoFailure {
                kind: IoKind::InvalidData,
                code: None
            }))
        );
    }
    assert!(files
        .log
        .iter()
        .all(|q| q.access == Access::Write(vec![])));
    assert_eq!(
        files.run(value("net.ipv4.ip_forward")),
        Ok(Outcome::Value(CtlValue::String("0".into())))
    );
    // the file is opened first: one that is not there is not found
    assert_eq!(
        files.run(set_value("no.such", CtlValue::Int(1))),
        Err(SysctlError::NotFound("/proc/sys/no/such".into()))
    );
}

#[test]
fn a_directory_is_a_node_and_a_file_is_text() {
    let mut files = files();
    let kernel = Ctl::new("kernel").unwrap();
    assert_eq!(
        files.run(kernel.value_type()),
        Ok(Outcome::Type(CtlType::Node))
    );
    let ostype = Ctl::new("kernel.ostype").unwrap();
    assert_eq!(
        files.run(ostype.value_type()),
        Ok(Outcome::Type(CtlType::String))
    );
    assert_eq!(files.log[1].access, Access::Stat);
    assert_eq!(files.log[1].path, "/proc/sys/kernel/ostype");
}

#[test]
fn the_descriptor_of_a_file() {
    let mut files = files();
    let ostype = Ctl::new("kernel.ostype").unwrap();
    let info = match files.run(ostype.info()).unwrap() {
        Outcome::Info(info) => info,
        other => panic!("no descriptor: {:?}", other),
    };
    assert_eq!(info.ctl_type, CtlType::String);
    assert_eq!(info.fmt, "");
    assert_eq!(info.flags, CTLFLAG_RD);
    // kern.osrevision is not a structure.
    assert_eq!(info.struct_type(), None);
    let flags = match files.run(ostype.flags()).unwrap() {
        Outcome::Flags(flags) => flags,
        other => panic!("no flags: {:?}", other),
    };
    assert_eq!(flags.bits(), CTLFLAG_RD);

    let hostname = Ctl::new("kernel.hostname").unwrap();
    let info = match files.run(hostname.info()).unwrap() {
        Outcome::Info(info) => info,
        other => panic!("no descriptor: {:?}", other),
    };
    assert_eq!(info.flags, CTLFLAG_RW);
    assert!(info.is_readable() && info.is_writable());
}

#[test]
fn a_walk_hands_on_what_follows_the_directory() {
    let files = files();
    assert_eq!(CtlIter::root_dir(), "/proc/sys");
    let mut iter = CtlIter::root(files.entries("/proc/sys"));
    let mut names = vec![];
    while let Some(item) = iter.next() {
        names.push(item.unwrap().name().unwrap());
    }
    assert_eq!(
        names,
        vec![
            "kernel",
            "kernel.hostname",
            "kernel.ostype",
            "net",
            "net.ipv4",
            "net.ipv4.ip_forward"
        ]
    );
    assert_eq!(iter.next(), None);
    assert_eq!(iter.next(), None);
}

#[test]
fn a_walk_ends_at_the_first_path_outside_its_base() {
    let entries = vec![
        Some("/proc/sys/net".to_string()),
        Some("/proc/sys/net/ipv4".to_string()),
        Some("/proc/sys/vm".to_string()),
        Some("/proc/sys/net/ipv6".to_string()),
    ];
    let node = Ctl::new("/proc/sys/net").unwrap();
    let mut iter = CtlIter::below(node, entries.clone());
    assert_eq!(iter.next(), Some(Ctl::new("net.ipv4")));
    assert_eq!(iter.next(), None);
    assert_eq!(iter.next(), None);

    let mut iter = CtlIter::root(entries);
    assert_eq!(iter.next(), Some(Ctl::new("net.ipv4")));
    assert_eq!(iter.next(), Some(Ctl::new("vm")));
    assert_eq!(iter.next(), Some(Ctl::new("net.ipv6")));
    assert_eq!(iter.next(), None);

    let mut iter = CtlIter::root(vec![
        Some("/proc/sys".to_string()),
        Some("/proc/sys/a".to_string()),
        Some("/etc/passwd".to_string()),
        Some("/proc/sys/b".to_string()),
    ]);
    assert_eq!(iter.next(), Some(Ctl::new("a")));
    assert_eq!(iter.next(), None);
    assert_eq!(iter.next(), None);
}

#[test]
fn a_walk_ends_at_a_path_that_is_no_text() {
    let mut iter = CtlIter::root(vec![
        Some("/proc/sys".to_string()),
        None,
        Some("/proc/sys/b".to_string()),
    ]);
    assert_eq!(iter.next(), Some(Err(SysctlError::ParseError)));
    assert_eq!(iter.next(), None);
}

#[test]
fn a_walk_over_nothing_is_over() {
    let mut iter = CtlIter::root(vec![]);
    assert_eq!(iter.next(), None);
    let mut iter = CtlIter::root(vec![Some("/proc/sys".to_string())]);
    assert_eq!(iter.next(), None);
    assert_eq!(iter.next(), None);
}
