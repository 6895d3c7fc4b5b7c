//! Tests for the sync/publish file plans and the orchestration machines.

use base64::Engine;
use nibandh::gitops::{CmdOutcome, GitCmd};
use nibandh::media::FetchResponse;
use nibandh::pipeline::{build_publish_plan, build_sync_plan, CoverAction};
use nibandh::publish_flow::{PublishAction, PublishMachine};
use nibandh::sync_flow::{SyncAction, SyncMachine};

fn b(s: &str) -> Vec<u8> {
    s.as_bytes().to_vec()
}

fn s(v: &[u8]) -> String {
    String::from_utf8(v.to_vec()).unwrap()
}

fn one_pixel_png() -> Vec<u8> {
    let img = image::RgbaImage::from_pixel(1, 1, image::Rgba([0, 0, 255, 255]));
    let mut png: Vec<u8> = Vec::new();
    image::DynamicImage::ImageRgba8(img)
        .write_to(&mut std::io::Cursor::new(&mut png), image::ImageFormat::Png)
        .unwrap();
    png
}

fn png_data_url() -> String {
    let png = one_pixel_png();
    let b64 = base64::engine::general_purpose::STANDARD.encode(&png);
    format!("data:image/png;base64,{}", b64)
}

fn ok_out(stdout: &str) -> CmdOutcome {
    CmdOutcome { success: true, stdout: b(stdout), stderr: Vec::new() }
}

fn fail_out(stderr: &str) -> CmdOutcome {
    CmdOutcome { success: false, stdout: Vec::new(), stderr: b(stderr) }
}

#[test]
fn sync_plan_scenario_hello_world() {
    let content = format!("![a]({})", png_data_url());
    let fetches: Vec<Option<FetchResponse>> = Vec::new();
    let plan = build_sync_plan(
        &b("hello-world"),
        &b("Hello World"),
        &b("2024-05-01"),
        &vec![b("go"), b("systems")],
        &b("a description"),
        &b(""),
        None,
        &None,
        &content.into_bytes(),
        &b("draft-42"),
        &fetches,
    );
    assert_eq!(s(&plan.article_path), "drafts/hello-world.md");
    let article = s(&plan.article);
    assert!(article.contains("tags: [\"go\", \"systems\"]"));
    assert!(article.contains("title: \"Hello World\""));
    assert!(article.contains("cover: \"\""));
    assert!(article.contains("cover_position: 50"));
    assert!(article.contains("draft_id: \"draft-42\""));
    assert!(article.ends_with("![a](/drafts/images/img_hello-world_1.webp)"));
    assert_eq!(plan.images.len(), 1);
    assert_eq!(s(&plan.images[0].filename), "img_hello-world_1.webp");
    assert_eq!(
        image::guess_format(&plan.images[0].bytes).unwrap(),
        image::ImageFormat::WebP
    );
    assert!(matches!(plan.cover.action, CoverAction::Keep));
    assert_eq!(plan.cover.path.len(), 0);
}

#[test]
fn publish_plan_covers_and_filenames_are_idempotent() {
    let content = format!("![a]({})", png_data_url());
    let cover = png_data_url();
    let fetches: Vec<Option<FetchResponse>> = Vec::new();
    let mk = || {
        build_publish_plan(
            &b("post"),
            &b("Post"),
            &b("2024-05-01"),
            &vec![b("go")],
            &b("d"),
            &cover.clone().into_bytes(),
            Some(62),
            &Some(b("2024-06-01")),
            &content.clone().into_bytes(),
            &None,
            false,
            &fetches,
        )
    };
    let p1 = mk();
    let p2 = mk();
    assert_eq!(s(&p1.article_path), "content/articles/post.md");
    let names1: Vec<String> = p1.images.iter().map(|i| s(&i.filename)).collect();
    let names2: Vec<String> = p2.images.iter().map(|i| s(&i.filename)).collect();
    assert_eq!(names1, names2);
    assert_eq!(s(&p1.cover.path), "/images/cover_post.webp");
    match &p1.cover.action {
        CoverAction::Store(img) => assert_eq!(s(&img.filename), "cover_post.webp"),
        _ => panic!("expected a stored cover"),
    }
    let article = s(&p1.article);
    assert!(article.contains("cover: \"/images/cover_post.webp\""));
    assert!(article.contains("cover_position: 62"));
    assert!(article.contains("last_updated: \"2024-06-01\""));
    assert!(!article.contains("draft_id"));
}

#[test]
fn publish_cover_promote_from_drafts() {
    let fetches: Vec<Option<FetchResponse>> = Vec::new();
    let plan = build_publish_plan(
        &b("post"),
        &b("Post"),
        &b("2024-05-01"),
        &Vec::new(),
        &b("d"),
        &b("/drafts/images/img_post_1.webp"),
        None,
        &None,
        &b("no images"),
        &None,
        true,
        &fetches,
    );
    assert_eq!(s(&plan.cover.path), "/images/img_post_1.webp");
    match &plan.cover.action {
        CoverAction::Promote(f) => assert_eq!(s(f), "img_post_1.webp"),
        _ => panic!("expected a promoted cover"),
    }
}

#[test]
fn publish_remote_cover_failure_keeps_url() {
    let fetches: Vec<Option<FetchResponse>> = Vec::new();
    let plan = build_publish_plan(
        &b("post"),
        &b("Post"),
        &b("2024-05-01"),
        &Vec::new(),
        &b("d"),
        &b("https://img.example/cover.png"),
        None,
        &None,
        &b("text"),
        &None,
        false,
        &fetches,
    );
    assert_eq!(s(&plan.cover.path), "https://img.example/cover.png");
    assert!(matches!(plan.cover.action, CoverAction::Keep));
}

#[test]
fn frontmatter_escapes_quotes() {
    let fetches: Vec<Option<FetchResponse>> = Vec::new();
    let plan = build_sync_plan(
        &b("q"),
        &b("He said \"hi\""),
        &b("2024-01-01"),
        &vec![b("a\"b")],
        &b("desc \"x\""),
        &b(""),
        None,
        &None,
        &b(""),
        &b("id"),
        &fetches,
    );
    let article = s(&plan.article);
    assert!(article.contains("title: \"He said \\\"hi\\\"\""));
    assert!(article.contains("tags: [\"a\\\"b\"]"));
    assert!(article.contains("description: \"desc \\\"x\\\"\""));
}

/// Runs the sync machine over scripted command outcomes, recording the
/// commands issued, and returns the machine.
fn drive_sync(mut m: SyncMachine, script: &mut dyn FnMut(&GitCmd) -> CmdOutcome) -> (SyncMachine, Vec<String>) {
    let mut issued: Vec<String> = Vec::new();
    let mut out = ok_out("");
    loop {
        let a = m.step(&out);
        match a {
            SyncAction::Run(cmd) => {
                issued.push(cmd_name(&cmd));
                out = script(&cmd);
            }
            SyncAction::Stage => {
                issued.push("stage".to_string());
                out = ok_out("");
            }
            SyncAction::Finished => return (m, issued),
        }
    }
}

fn cmd_name(c: &GitCmd) -> String {
    match c {
        GitCmd::Status => "status".into(),
        GitCmd::StashPush => "stash-push".into(),
        GitCmd::StashPop => "stash-pop".into(),
        GitCmd::RevParseHead => "rev-parse".into(),
        GitCmd::FetchOrigin(n) => format!("fetch:{}", s(n)),
        GitCmd::ShowRefBranch(n) => format!("show-ref:{}", s(n)),
        GitCmd::Checkout(n) => format!("checkout:{}", s(n)),
        GitCmd::CheckoutNewFrom(n, f) => format!("checkout-b:{}:{}", s(n), s(f)),
        GitCmd::CheckoutNew(n) => format!("checkout-b:{}", s(n)),
        GitCmd::Pull(n) => format!("pull:{}", s(n)),
        GitCmd::AddDrafts => "add-drafts".into(),
        GitCmd::AddContent => "add-content".into(),
        GitCmd::Commit(m) => format!("commit:{}", s(m)),
        GitCmd::Push(n) => format!("push:{}", s(n)),
        GitCmd::PrList(n) => format!("pr-list:{}", s(n)),
        GitCmd::PrCreate(t, n) => format!("pr-create:{}:{}", s(t), s(n)),
        GitCmd::PrMerge(n) => format!("pr-merge:{}", s(n)),
    }
}

#[test]
fn sync_dirty_tree_stashes_and_restores_on_success() {
    let m = SyncMachine::new(b("post"), b("My Post"));
    let (m, issued) = drive_sync(m, &mut |cmd| match cmd {
        GitCmd::Status => ok_out(" M file.txt\n"),
        GitCmd::RevParseHead => ok_out("main\n"),
        _ => ok_out(""),
    });
    let result = match m.outcome {
        Some(Ok(r)) => r,
        other => panic!("expected success, got {:?}", other.is_some()),
    };
    assert!(result.success);
    assert_eq!(s(&result.branch), "drafts/post");
    assert_eq!(s(&result.message), "Draft 'My Post' synced to drafts branch");
    assert_eq!(
        issued,
        vec![
            "status",
            "stash-push",
            "rev-parse",
            "show-ref:drafts/post",
            "checkout:drafts/post",
            "pull:drafts/post",
            "stage",
            "add-drafts",
            "commit:Sync draft: My Post",
            "push:drafts/post",
            "checkout:main",
            "stash-pop",
        ]
    );
}

#[test]
fn sync_dirty_tree_restores_on_failure_too() {
    let m = SyncMachine::new(b("post"), b("My Post"));
    let (m, issued) = drive_sync(m, &mut |cmd| match cmd {
        GitCmd::Status => ok_out(" M file.txt\n"),
        GitCmd::RevParseHead => ok_out("main\n"),
        GitCmd::Push(_) => fail_out("remote rejected"),
        _ => ok_out(""),
    });
    match m.outcome {
        Some(Err(e)) => assert_eq!(s(&e), "git push failed: remote rejected"),
        _ => panic!("expected failure"),
    }
    // the original branch is checked out and the stash popped before failing
    assert_eq!(issued[issued.len() - 2], "checkout:main");
    assert_eq!(issued[issued.len() - 1], "stash-pop");
}

#[test]
fn sync_benign_commit_failure_proceeds_to_push() {
    let m = SyncMachine::new(b("post"), b("T"));
    let (m, issued) = drive_sync(m, &mut |cmd| match cmd {
        GitCmd::Status => ok_out(""),
        GitCmd::RevParseHead => ok_out("main\n"),
        GitCmd::Commit(_) => fail_out("nothing to commit, working tree clean"),
        _ => ok_out(""),
    });
    assert!(matches!(m.outcome, Some(Ok(_))));
    assert!(issued.iter().any(|c| c.starts_with("push:")));
}

#[test]
fn sync_failed_final_pop_is_an_error() {
    let m = SyncMachine::new(b("post"), b("T"));
    let (m, _issued) = drive_sync(m, &mut |cmd| match cmd {
        GitCmd::Status => ok_out(" M x\n"),
        GitCmd::RevParseHead => ok_out("main\n"),
        GitCmd::StashPop => fail_out("conflict in x"),
        _ => ok_out(""),
    });
    match m.outcome {
        Some(Err(e)) => assert_eq!(s(&e), "git stash pop failed: conflict in x"),
        _ => panic!("expected the lost stash to surface as an error"),
    }
}

#[test]
fn sync_clean_tree_never_stashes_or_pops() {
    let m = SyncMachine::new(b("post"), b("T"));
    let (m, issued) = drive_sync(m, &mut |cmd| match cmd {
        GitCmd::Status => ok_out(""),
        GitCmd::RevParseHead => ok_out("feature\n"),
        GitCmd::ShowRefBranch(_) => fail_out(""),
        GitCmd::FetchOrigin(_) => fail_out("no such remote branch"),
        _ => ok_out(""),
    });
    assert!(matches!(m.outcome, Some(Ok(_))));
    assert!(!issued.iter().any(|c| c.starts_with("stash")));
    // the branch was created from main since the remote fetch failed
    assert!(issued.contains(&"checkout-b:drafts/post:main".to_string()));
    assert!(issued.contains(&"checkout:feature".to_string()));
}

fn drive_publish(
    mut m: PublishMachine,
    script: &mut dyn FnMut(&GitCmd) -> CmdOutcome,
) -> (PublishMachine, Vec<String>) {
    let mut issued: Vec<String> = Vec::new();
    let mut out = ok_out("");
    loop {
        let a = m.step(&out);
        match a {
            PublishAction::Run(cmd) => {
                issued.push(cmd_name(&cmd));
                out = script(&cmd);
            }
            PublishAction::Stage => {
                issued.push("stage".to_string());
                out = ok_out("");
            }
            PublishAction::Finished => return (m, issued),
        }
    }
}

#[test]
fn publish_creates_pr_and_merges() {
    let m = PublishMachine::new(b("post"), b("My Post"), b("Publish post"));
    let mut listed = false;
    let (m, issued) = drive_publish(m, &mut |cmd| match cmd {
        GitCmd::Status => ok_out(""),
        GitCmd::RevParseHead => ok_out("main\n"),
        GitCmd::ShowRefBranch(_) => fail_out(""),
        GitCmd::PrList(_) => {
            if listed {
                ok_out("17\n")
            } else {
                listed = true;
                ok_out("")
            }
        }
        _ => ok_out(""),
    });
    let r = match m.outcome {
        Some(Ok(r)) => r,
        _ => panic!("expected success"),
    };
    assert!(r.success);
    assert_eq!(s(&r.message), "PR created and merged successfully.");
    assert_eq!(s(r.file_path.as_ref().unwrap()), "content/articles/post.md");
    assert!(issued.contains(&"checkout-b:drafts/post:origin/main".to_string()));
    assert!(issued.contains(&"pr-create:Publish: My Post:drafts/post".to_string()));
    assert!(issued.contains(&"pr-merge:17".to_string()));
}

#[test]
fn publish_merge_failure_still_succeeds_with_note() {
    let m = PublishMachine::new(b("post"), b("My Post"), b("Publish post"));
    let (m, issued) = drive_publish(m, &mut |cmd| match cmd {
        GitCmd::Status => ok_out(" M y\n"),
        GitCmd::RevParseHead => ok_out("main\n"),
        GitCmd::PrList(_) => ok_out("4\n"),
        GitCmd::PrMerge(_) => fail_out("required review"),
        _ => ok_out(""),
    });
    let r = match m.outcome {
        Some(Ok(r)) => r,
        _ => panic!("expected success despite the failed merge"),
    };
    assert!(r.success);
    assert_eq!(
        s(&r.message),
        "PR created for 'My Post' but could not be merged automatically: required review"
    );
    assert_eq!(s(r.file_path.as_ref().unwrap()), "content/articles/post.md");
    // the guard still restored branch and stash
    assert_eq!(issued[issued.len() - 2], "checkout:main");
    assert_eq!(issued[issued.len() - 1], "stash-pop");
}

#[test]
fn publish_commit_benign_failure_proceeds() {
    let m = PublishMachine::new(b("post"), b("T"), b("msg"));
    let (m, issued) = drive_publish(m, &mut |cmd| match cmd {
        GitCmd::Status => ok_out(""),
        GitCmd::RevParseHead => ok_out("main\n"),
        GitCmd::Commit(_) => fail_out("nothing to commit, working tree clean"),
        GitCmd::PrList(_) => ok_out("9"),
        _ => ok_out(""),
    });
    assert!(matches!(m.outcome, Some(Ok(_))));
    assert!(issued.iter().any(|c| c.starts_with("push:")));
}

#[test]
fn publish_add_failure_restores_and_reports() {
    let m = PublishMachine::new(b("post"), b("T"), b("msg"));
    let (m, issued) = drive_publish(m, &mut |cmd| match cmd {
        GitCmd::Status => ok_out(" M z\n"),
        GitCmd::RevParseHead => ok_out("work\n"),
        GitCmd::AddContent => fail_out("index locked"),
        _ => ok_out(""),
    });
    match m.outcome {
        Some(Err(e)) => assert_eq!(s(&e), "git add failed: index locked"),
        _ => panic!("expected failure"),
    }
    assert_eq!(issued[issued.len() - 2], "checkout:work");
    assert_eq!(issued[issued.len() - 1], "stash-pop");
}

#[test]
fn sync_status_failure_aborts_before_any_mutation() {
    let m = SyncMachine::new(b("post"), b("T"));
    let (m, issued) = drive_sync(m, &mut |cmd| match cmd {
        GitCmd::Status => fail_out("not a git repository"),
        _ => ok_out(""),
    });
    match m.outcome {
        Some(Err(e)) => assert_eq!(s(&e), "git status failed: not a git repository"),
        _ => panic!("expected failure"),
    }
    assert_eq!(issued, vec!["status"]);
}

#[test]
fn sync_stash_failure_aborts() {
    let m = SyncMachine::new(b("post"), b("T"));
    let (m, issued) = drive_sync(m, &mut |cmd| match cmd {
        GitCmd::Status => ok_out("?? new.txt\n"),
        GitCmd::StashPush => fail_out("cannot stash"),
        _ => ok_out(""),
    });
    match m.outcome {
        Some(Err(e)) => assert_eq!(s(&e), "git stash failed: cannot stash"),
        _ => panic!("expected failure"),
    }
    assert_eq!(issued, vec!["status", "stash-push"]);
}

#[test]
fn sync_checkout_failure_pops_stash_before_failing() {
    let m = SyncMachine::new(b("post"), b("T"));
    let (m, issued) = drive_sync(m, &mut |cmd| match cmd {
        GitCmd::Status => ok_out(" M a\n"),
        GitCmd::RevParseHead => ok_out("main\n"),
        GitCmd::Checkout(_) => fail_out("would clobber"),
        _ => ok_out(""),
    });
    match m.outcome {
        Some(Err(e)) => assert_eq!(s(&e), "Failed to checkout drafts branch: would clobber"),
        _ => panic!("expected failure"),
    }
    // never switched away, so no checkout back; the stash is still popped
    assert_eq!(issued.last().unwrap(), "stash-pop");
}

#[test]
fn publish_pr_create_failure_restores_and_reports() {
    let m = PublishMachine::new(b("post"), b("T"), b("msg"));
    let (m, issued) = drive_publish(m, &mut |cmd| match cmd {
        GitCmd::Status => ok_out(""),
        GitCmd::RevParseHead => ok_out("main\n"),
        GitCmd::PrList(_) => ok_out(""),
        GitCmd::PrCreate(_, _) => fail_out("no auth"),
        _ => ok_out(""),
    });
    match m.outcome {
        Some(Err(e)) => assert_eq!(s(&e), "Failed to create PR: no auth"),
        _ => panic!("expected failure"),
    }
    assert_eq!(issued.last().unwrap(), "checkout:main");
}

#[test]
fn publish_unresolvable_pr_number_restores_and_reports() {
    let m = PublishMachine::new(b("post"), b("T"), b("msg"));
    let (m, issued) = drive_publish(m, &mut |cmd| match cmd {
        GitCmd::Status => ok_out(""),
        GitCmd::RevParseHead => ok_out("main\n"),
        GitCmd::PrList(_) => ok_out("  \n"),
        _ => ok_out(""),
    });
    match m.outcome {
        Some(Err(e)) => assert_eq!(s(&e), "Failed to resolve PR number"),
        _ => panic!("expected failure"),
    }
    assert!(issued.iter().filter(|c| c.starts_with("pr-list:")).count() == 2);
    assert_eq!(issued.last().unwrap(), "checkout:main");
}
