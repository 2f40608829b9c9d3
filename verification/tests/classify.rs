use slmap::link::{
    check_resolved, classify, create_resolved, default_root, delete_resolved, status_from, Link,
    LinkProbe, LinkStatus,
};
use slmap::step::Step;

fn link(target: &str, link_name: &str) -> Link {
    Link { target: target.to_string(), link_name: link_name.to_string(), root: false }
}

fn absent() -> LinkProbe {
    LinkProbe::new(false, false, Err("No such file or directory (os error 2)".to_string()))
}

fn plain_file() -> LinkProbe {
    LinkProbe::new(true, false, Err("Invalid argument (os error 22)".to_string()))
}

fn symlink_to(stored: &str) -> LinkProbe {
    LinkProbe::new(true, true, Ok(stored.to_string()))
}

#[test]
fn root_defaults_to_false() {
    assert!(!default_root());
}

#[test]
fn nothing_at_the_link_name_is_missing() {
    assert_eq!(classify("/home/u/dotfiles/vimrc", &absent()), LinkStatus::Missing);
}

#[test]
fn a_link_whose_target_is_gone_is_classified_like_any_other() {
    assert_eq!(classify("/gone", &symlink_to("/gone")), LinkStatus::Correct);
    assert_eq!(
        classify("/home/u/dotfiles/vimrc", &symlink_to("/gone")),
        LinkStatus::Incorrect("/gone".to_string())
    );
}

#[test]
fn a_probe_that_found_a_link_found_something() {
    let followed = LinkProbe::new(false, true, Ok("/gone".to_string()));
    assert!(followed.is_present());
    assert!(followed.is_symlink());
    assert_eq!(followed.read_link(), &Ok("/gone".to_string()));
    assert_eq!(classify("/gone", &followed), LinkStatus::Correct);
    assert_eq!(classify("/here", &followed), LinkStatus::Incorrect("/gone".to_string()));
    let nothing = LinkProbe::new(false, false, Err("none".to_string()));
    assert!(!nothing.is_present());
    assert!(!nothing.is_symlink());
    let file = LinkProbe::new(true, false, Err("no link".to_string()));
    assert!(file.is_present());
    assert!(!file.is_symlink());
}

#[test]
fn a_file_at_the_link_name_is_not_a_symlink() {
    assert_eq!(classify("/home/u/dotfiles/vimrc", &plain_file()), LinkStatus::NotSymlink);
}

#[test]
fn a_link_with_the_declared_target_is_correct() {
    assert_eq!(
        classify("/home/u/dotfiles/vimrc", &symlink_to("/home/u/dotfiles/vimrc")),
        LinkStatus::Correct
    );
}

#[test]
fn targets_are_compared_as_paths() {
    assert_eq!(classify("/home/u/dotfiles", &symlink_to("/home/u/dotfiles/")), LinkStatus::Correct);
    assert_eq!(classify("/home/u//dotfiles", &symlink_to("/home/u/dotfiles")), LinkStatus::Correct);
    assert_eq!(
        classify("/home/u/Dotfiles", &symlink_to("/home/u/dotfiles")),
        LinkStatus::Incorrect("/home/u/dotfiles".to_string())
    );
}

#[test]
fn a_link_with_another_target_is_incorrect_and_carries_it() {
    assert_eq!(
        classify("/home/u/dotfiles/vimrc", &symlink_to("/etc/vimrc")),
        LinkStatus::Incorrect("/etc/vimrc".to_string())
    );
}

#[test]
fn a_link_that_cannot_be_read_is_an_error_with_the_diagnostic() {
    let unreadable = LinkProbe::new(true, true, Err("Permission denied (os error 13)".to_string()));
    assert_eq!(
        classify("/home/u/dotfiles/vimrc", &unreadable),
        LinkStatus::Error("Permission denied (os error 13)".to_string())
    );
}

#[test]
fn classifying_twice_gives_the_same_status() {
    let probe = symlink_to("/etc/vimrc");
    let first = classify("/home/u/dotfiles/vimrc", &probe);
    let second = classify("/home/u/dotfiles/vimrc", &probe);
    assert_eq!(first, second);
}

#[test]
fn a_literal_specification_resolves_to_itself() {
    let vimrc = link("/home/u/dotfiles/vimrc", "/home/u/.vimrc");
    assert_eq!(vimrc.resolved_target(), Ok("/home/u/dotfiles/vimrc".to_string()));
    assert_eq!(vimrc.resolved_link_name(), Ok("/home/u/.vimrc".to_string()));
}

#[test]
fn an_empty_specification_resolves_to_itself() {
    let empty = link("", "");
    assert_eq!(empty.resolved_target(), Ok(String::new()));
    assert_eq!(empty.resolved_link_name(), Ok(String::new()));
}

#[test]
fn a_variable_that_is_not_set_is_the_error() {
    let broken = link("$SLMAP_TEST_NEVER_SET_TARGET/vimrc", "${SLMAP_TEST_NEVER_SET_NAME}/.vimrc");
    assert_eq!(broken.resolved_target(), Err("SLMAP_TEST_NEVER_SET_TARGET".to_string()));
    assert_eq!(broken.resolved_link_name(), Err("SLMAP_TEST_NEVER_SET_NAME".to_string()));
}

#[test]
fn a_default_stands_in_for_a_variable_that_is_not_set() {
    let with_default = link("${SLMAP_TEST_NEVER_SET:-/srv}/vimrc", "/home/u/.vimrc");
    assert_eq!(with_default.resolved_target(), Ok("/srv/vimrc".to_string()));
}

#[test]
fn a_tilde_inside_a_specification_is_kept() {
    let inner = link("/srv/~/vimrc", "/home/u/~vimrc");
    assert_eq!(inner.resolved_target(), Ok("/srv/~/vimrc".to_string()));
    assert_eq!(inner.resolved_link_name(), Ok("/home/u/~vimrc".to_string()));
}

#[test]
fn a_leading_tilde_never_fails() {
    let home = link("~/dotfiles/vimrc", "~/.vimrc");
    let target = home.resolved_target().unwrap();
    assert!(target.ends_with("/dotfiles/vimrc"));
    assert!(home.resolved_link_name().is_ok());
}

#[test]
fn check_link_classifies_against_the_resolved_target() {
    let vimrc = link("/home/u/dotfiles/vimrc", "/home/u/.vimrc");
    assert_eq!(vimrc.check_link(&absent()), Ok(LinkStatus::Missing));
    assert_eq!(vimrc.check_link(&plain_file()), Ok(LinkStatus::NotSymlink));
    assert_eq!(vimrc.check_link(&symlink_to("/home/u/dotfiles/vimrc")), Ok(LinkStatus::Correct));
    assert_eq!(
        vimrc.check_link(&symlink_to("/etc/vimrc")),
        Ok(LinkStatus::Incorrect("/etc/vimrc".to_string()))
    );
}

#[test]
fn check_link_fails_on_the_first_variable_that_is_not_set() {
    let both = link("$SLMAP_TEST_NEVER_SET_A/vimrc", "$SLMAP_TEST_NEVER_SET_B/.vimrc");
    assert_eq!(both.check_link(&absent()), Err("SLMAP_TEST_NEVER_SET_A".to_string()));
    let name_only = link("/home/u/dotfiles/vimrc", "$SLMAP_TEST_NEVER_SET_B/.vimrc");
    assert_eq!(name_only.check_link(&absent()), Err("SLMAP_TEST_NEVER_SET_B".to_string()));
}

#[test]
fn create_link_gives_the_step_with_both_paths_resolved() {
    let vimrc = link("${SLMAP_TEST_NEVER_SET:-/srv}/vimrc", "/home/u/.vimrc");
    assert_eq!(
        vimrc.create_link(),
        Ok(Step::Create { link_name: "/home/u/.vimrc".to_string(), target: "/srv/vimrc".to_string() })
    );
    let broken = link("$SLMAP_TEST_NEVER_SET_A/vimrc", "/home/u/.vimrc");
    assert_eq!(broken.create_link(), Err("SLMAP_TEST_NEVER_SET_A".to_string()));
}

#[test]
fn delete_link_removes_only_a_symbolic_link() {
    let vimrc = link("/home/u/dotfiles/vimrc", "/home/u/.vimrc");
    assert_eq!(
        vimrc.delete_link(&symlink_to("/etc/vimrc")),
        Ok(Some(Step::Remove("/home/u/.vimrc".to_string())))
    );
    assert_eq!(vimrc.delete_link(&plain_file()), Ok(None));
    assert_eq!(vimrc.delete_link(&absent()), Ok(None));
    let broken = link("/home/u/dotfiles/vimrc", "$SLMAP_TEST_NEVER_SET_B/.vimrc");
    assert_eq!(
        broken.delete_link(&symlink_to("/etc/vimrc")),
        Err("SLMAP_TEST_NEVER_SET_B".to_string())
    );
}

#[test]
fn the_status_follows_from_the_probe_and_the_comparison() {
    assert_eq!(status_from(&absent(), true), LinkStatus::Missing);
    assert_eq!(status_from(&plain_file(), true), LinkStatus::NotSymlink);
    assert_eq!(status_from(&symlink_to("/a"), true), LinkStatus::Correct);
    assert_eq!(status_from(&symlink_to("/a"), false), LinkStatus::Incorrect("/a".to_string()));
    let unreadable = LinkProbe::new(true, true, Err("denied".to_string()));
    assert_eq!(status_from(&unreadable, true), LinkStatus::Error("denied".to_string()));
}

#[test]
fn a_check_fails_with_the_target_before_the_link_name() {
    let probe = symlink_to("/t");
    assert_eq!(
        check_resolved(Err("T".to_string()), Err("L".to_string()), &probe),
        Err("T".to_string())
    );
    assert_eq!(
        check_resolved(Err("T".to_string()), Ok("/l".to_string()), &probe),
        Err("T".to_string())
    );
    assert_eq!(
        check_resolved(Ok("/t".to_string()), Err("L".to_string()), &probe),
        Err("L".to_string())
    );
    assert_eq!(
        check_resolved(Ok("/t".to_string()), Ok("/l".to_string()), &probe),
        Ok(LinkStatus::Correct)
    );
    assert_eq!(
        check_resolved(Ok("/other".to_string()), Ok("/l".to_string()), &probe),
        Ok(LinkStatus::Incorrect("/t".to_string()))
    );
}

#[test]
fn the_step_that_makes_a_link_has_both_resolved_paths() {
    assert_eq!(
        create_resolved(Ok("/t".to_string()), Ok("/l".to_string())),
        Ok(Step::Create { link_name: "/l".to_string(), target: "/t".to_string() })
    );
    assert_eq!(create_resolved(Err("T".to_string()), Err("L".to_string())), Err("T".to_string()));
    assert_eq!(create_resolved(Ok("/t".to_string()), Err("L".to_string())), Err("L".to_string()));
}

#[test]
fn the_step_that_removes_a_link_needs_a_symbolic_link() {
    assert_eq!(
        delete_resolved(Ok("/l".to_string()), &symlink_to("/t")),
        Ok(Some(Step::Remove("/l".to_string())))
    );
    let dangling = LinkProbe::new(true, true, Ok("/gone".to_string()));
    assert_eq!(
        delete_resolved(Ok("/l".to_string()), &dangling),
        Ok(Some(Step::Remove("/l".to_string())))
    );
    assert_eq!(delete_resolved(Ok("/l".to_string()), &plain_file()), Ok(None));
    assert_eq!(delete_resolved(Ok("/l".to_string()), &absent()), Ok(None));
    assert_eq!(delete_resolved(Err("L".to_string()), &symlink_to("/t")), Err("L".to_string()));
}
