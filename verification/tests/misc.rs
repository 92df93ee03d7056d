use kobold::event::EventTarget;
use kobold::gen::IdentFactory;
use kobold::host::Host;
use kobold::keywords::{for_bounded, for_view};
use kobold::list::bounded::BoundedProduct;
use kobold::log::LogConfig;
use kobold::log::Title;
use kobold::manifest::{select_package, Package};
use kobold::report::ErrorExt;
use kobold::text::TextProduct;
use kobold::Mountable;
use kobold::Render;

#[test]
fn host_surface_basics() {
    let mut host = Host::new();
    assert_eq!(host.len(), 0);
    let a = host.create_text("hello".to_string());
    let b = host.create_empty();
    assert_eq!(host.len(), 2);
    assert_eq!(host.read_text(a), "hello");
    assert_eq!(host.read_text(b), "");
    assert!(!host.is_attached(a));

    host.append(a);
    assert!(host.is_attached(a));
    host.set_text(a, "changed".to_string());
    assert_eq!(host.read_text(a), "changed");
    assert!(host.is_attached(a));
    host.detach(a);
    assert!(!host.is_attached(a));

    assert!(host.focused().is_none());
    host.focus(b);
    assert_eq!(host.focused(), Some(b));

    let e1 = host.next_event_id();
    let e2 = host.next_event_id();
    assert_ne!(e1, e2);
    assert_eq!(host.event_ids_used(), 2);
}

#[test]
fn event_target_focus() {
    let mut host = Host::new();
    let field = host.create_empty();
    let target = EventTarget::new(field);
    target.focus(&mut host);
    assert_eq!(host.focused(), Some(field));
}

#[test]
fn keywords_render_lists() {
    let mut host = Host::new();
    let mut p = for_view(vec!["k".to_string(), "l".to_string()]).build(&mut host);
    assert_eq!(p.mounted(), 2);
    for_view(vec!["k".to_string()]).update(&mut p, &mut host);
    assert_eq!(p.mounted(), 1);

    let bounded = for_bounded::<_, 2>(vec!["x".to_string(), "y".to_string(), "z".to_string()]);
    let q: BoundedProduct<TextProduct, 2> = bounded.build(&mut host);
    assert_eq!(q.mounted(), 2);
}

#[test]
fn log_switches_are_one_way() {
    let mut config = LogConfig::new();
    assert!(!config.is_verbose_output_enabled());
    assert!(!config.is_color_output_enabled());
    config.enable_verbose_output();
    assert!(config.is_verbose_output_enabled());
    assert!(!config.is_color_output_enabled());
    config.enable_color_output();
    assert!(config.is_verbose_output_enabled());
    assert!(config.is_color_output_enabled());
}

#[test]
fn log_headings() {
    assert_eq!(kobold::log::Error.text(), "error");
    assert_eq!(Title("    Building").text(), "    Building");
}

#[test]
fn report_errors_carry_notes() {
    let plain = kobold::report::Error::message("nothing to build".to_string());
    assert_eq!(plain.message_text(), "nothing to build");
    assert!(plain.cause().is_none());
    assert!(plain.notes().is_empty());

    let failed: Result<u32, String> = Err("disk unplugged".to_string());
    let wrapped = failed.message("failed to read manifest");
    let err = match wrapped {
        Ok(_) => panic!("expected a failure"),
        Err(e) => e,
    };
    assert_eq!(err.message_text(), "failed to read manifest");
    assert_eq!(err.cause().as_deref(), Some("disk unplugged"));

    let noted = Err::<u32, kobold::report::Error>(err).note("run from the package root");
    let err = match noted {
        Ok(_) => panic!("expected a failure"),
        Err(e) => e,
    };
    assert_eq!(err.notes().len(), 1);
    assert_eq!(err.notes()[0], "run from the package root");

    let fine: Result<u32, String> = Ok(8);
    assert_eq!(fine.message("unused").unwrap(), 8);
}

#[test]
fn package_selection() {
    let packages = vec![
        Package {
            name: "alpha".to_string(),
            version: "1.0.0".to_string(),
            manifest_path: "/a/Cargo.toml".to_string(),
        },
        Package {
            name: "beta".to_string(),
            version: "0.3.0".to_string(),
            manifest_path: "/b/Cargo.toml".to_string(),
        },
    ];

    let wanted = "beta".to_string();
    let path = "/a/Cargo.toml".to_string();
    let by_name = select_package(packages, Some(&wanted), &path).unwrap();
    assert_eq!(by_name.name, "beta");
    assert_eq!(by_name.version, "0.3.0");

    let packages = vec![
        Package {
            name: "alpha".to_string(),
            version: "1.0.0".to_string(),
            manifest_path: "/a/Cargo.toml".to_string(),
        },
    ];
    let by_path = select_package(packages, None, &path).unwrap();
    assert_eq!(by_path.name, "alpha");

    let missing = "gamma".to_string();
    let none = select_package(Vec::new(), Some(&missing), &path);
    assert!(none.is_err());
}

#[test]
fn ident_factory_counts() {
    let mut factory = IdentFactory::new('a');
    assert_eq!(factory.next(), "a0");
    assert_eq!(factory.next(), "a1");
    for _ in 2..10 {
        factory.next();
    }
    // the counter renders as decimal digits past one digit too
    assert_eq!(factory.next(), "a10");
    assert_eq!(factory.next(), "a11");

    let mut elements = IdentFactory::new('e');
    assert_eq!(elements.next(), "e0");
}

struct Recorder(std::cell::Cell<Option<kobold::host::NodeId>>);

impl kobold::NodeHandler for &Recorder {
    fn handle(&self, node: kobold::host::NodeId) {
        self.0.set(Some(node));
    }
}

#[test]
fn on_mount_observes_the_handle() {
    let mut host = Host::new();
    let seen = Recorder(std::cell::Cell::new(None));
    let p = "content".to_string().on_mount(&seen).build(&mut host);
    assert_eq!(seen.0.get(), Some(p.js()));

    // on_mount never fires again on updates
    let mut p = p;
    seen.0.set(None);
    "content2".to_string().on_mount(&seen).update(&mut p, &mut host);
    assert_eq!(seen.0.get(), None);
}

#[test]
fn on_render_observes_every_pass() {
    let mut host = Host::new();
    let seen = Recorder(std::cell::Cell::new(None));
    let mut p = "one".to_string().on_render(&seen).build(&mut host);
    assert_eq!(seen.0.get(), Some(p.js()));
    seen.0.set(None);
    "two".to_string().on_render(&seen).update(&mut p, &mut host);
    assert_eq!(seen.0.get(), Some(p.js()));
    assert_eq!(host.read_text(p.js()), "two");
}
