use std::io::Cursor;

use tauri_plugin_thumbnail::error::Error;
use tauri_plugin_thumbnail::imaging::MAX_THUMBNAIL_SIZE;
use tauri_plugin_thumbnail::models::GetThumbnailRequest;
use tauri_plugin_thumbnail::pipeline::{Action, Event, Job, Platform, Stage, Step, HEADER_LEN};
use tauri_plugin_thumbnail::plans::{freedesktop_plan, macos_plan, pdf_plan, video_plan, Plan};
use tauri_plugin_thumbnail::pngtext::{is_current_thumbnail, is_png_file, png_text_range};
use tauri_plugin_thumbnail::runner::{PlanRun, RunEvent, RunMove};

const HASH: &str = "5c97be3b27dc22a1b7c28a7730d9b629";

fn png(width: u32, height: u32) -> Vec<u8> {
    let img = image::RgbImage::from_fn(width, height, |x, y| image::Rgb([x as u8, y as u8, 9]));
    let mut buf = Cursor::new(Vec::new());
    image::DynamicImage::ImageRgb8(img).write_to(&mut buf, image::ImageFormat::Png).unwrap();
    buf.into_inner()
}

fn request(path: &str) -> GetThumbnailRequest {
    GetThumbnailRequest { path: path.to_string(), width: None, height: None }
}

fn job_at_header(path: &str) -> Job {
    let (job, action) = Job::start(request(path), Platform::Other, "/tmp".to_string());
    assert!(matches!(action, Action::CheckExists));
    match job.advance(Event::Exists(true)) {
        Step::Continue(j, Action::ReadHeader(n)) => {
            assert_eq!(n, HEADER_LEN);
            assert_eq!(j.stage, Stage::Header);
            j
        }
        other => panic!("unexpected {:?}", other),
    }
}

#[test]
fn video_command_arguments() {
    let plan = video_plan("/tmp/video.mp4", 320, 240, "/tmp");
    assert!(plan.make_dir.is_none());
    assert_eq!(plan.attempts.len(), 1);
    let a = &plan.attempts[0];
    let cmd = a.run.as_ref().unwrap();
    let out = format!("/tmp/v_thumb_{}.png", HASH);
    assert_eq!(cmd.program, "ffmpeg");
    assert_eq!(
        cmd.args,
        vec![
            "-i", "/tmp/video.mp4", "-ss", "00:00:01", "-vframes", "1", "-s", "320x240", "-f",
            "image2", "-y", &out,
        ]
    );
    assert_eq!(a.output.as_deref(), Some(out.as_str()));
    assert!(a.keep_as.is_none());
    assert!(a.remove_after);
}

#[test]
fn pdf_command_arguments() {
    let plan = pdf_plan("/tmp/video.mp4", 256, 999, "/var/tmp/");
    let a = &plan.attempts[0];
    let cmd = a.run.as_ref().unwrap();
    let prefix = format!("/var/tmp/p_thumb_{}", HASH);
    assert_eq!(cmd.program, "pdftoppm");
    assert_eq!(
        cmd.args,
        vec![
            "-png", "-f", "1", "-l", "1", "-scale-to", "256", "-singlefile", "/tmp/video.mp4",
            &prefix,
        ]
    );
    assert_eq!(a.output, Some(format!("{}.png", prefix)));
    assert!(a.remove_after);
}

#[test]
fn macos_plan_steps() {
    let plan = macos_plan("/Users/u/Library/Caches/app", "/tmp/video.mp4", 100, 300);
    let dir = "/Users/u/Library/Caches/app/tauri-plugin-thumbnail";
    let cache_file = format!("{}/{}.png", dir, HASH);
    assert_eq!(plan.make_dir.as_deref(), Some(dir));
    assert_eq!(plan.attempts.len(), 3);
    let cached = &plan.attempts[0];
    assert!(cached.run.is_none());
    assert_eq!(cached.output.as_deref(), Some(cache_file.as_str()));
    let ql = &plan.attempts[1];
    assert_eq!(ql.run.as_ref().unwrap().program, "qlmanage");
    assert_eq!(ql.run.as_ref().unwrap().args, vec!["-t", "-s", "100", "-o", dir, "/tmp/video.mp4"]);
    assert_eq!(ql.output, Some(format!("{}/video.mp4.png", dir)));
    assert_eq!(ql.keep_as.as_deref(), Some(cache_file.as_str()));
    let sips = &plan.attempts[2];
    let tmp = format!("{}/tmp_{}.png", dir, HASH);
    assert_eq!(sips.run.as_ref().unwrap().program, "sips");
    assert_eq!(
        sips.run.as_ref().unwrap().args,
        vec!["-s", "format", "png", "-Z", "300", "-o", &tmp, "/tmp/video.mp4"]
    );
    assert_eq!(sips.output.as_deref(), Some(tmp.as_str()));
    assert_eq!(sips.keep_as.as_deref(), Some(cache_file.as_str()));
    let root = macos_plan("/c", "/", 1, 1);
    assert!(root.attempts[1].output.is_none());
}

#[test]
fn freedesktop_plan_lookups() {
    let plan = freedesktop_plan("/home/user/a b.png", Some("/x".to_string()), None, 42).unwrap();
    assert_eq!(plan.attempts.len(), 4);
    for a in &plan.attempts {
        let key = a.require.as_ref().unwrap();
        assert_eq!(key.uri, "file:///home/user/a%20b.png");
        assert_eq!(key.mtime, 42);
    }
    assert_eq!(
        plan.attempts[2].output.as_deref(),
        Some("/x/thumbnails/x-large/8636bc335304df3227efbc80fd88d481.png")
    );
    assert!(plan.attempts.iter().all(|a| a.run.is_none() && !a.remove_after));
    assert!(freedesktop_plan("a b.png", Some("/x".to_string()), None, 42).is_none());
    assert!(macos_plan("/c", "/f", 1, 1).attempts.iter().all(|a| a.require.is_none()));
}

fn run_plan(plan: &Plan, answer: &mut dyn FnMut(&RunMove) -> RunEvent) -> Vec<String> {
    let mut trace = Vec::new();
    let (mut run, mut mv) = PlanRun::start(plan);
    for _ in 0..100 {
        trace.push(format!("{:?}", mv));
        match mv {
            RunMove::Run(_) | RunMove::Check(_) | RunMove::Read(_) => {
                let ev = answer(&mv);
                let (r, m) = run.advance(plan, ev);
                run = r;
                mv = m;
            }
            _ => return trace,
        }
    }
    panic!("plan run did not end");
}

#[test]
fn runner_tries_attempts_in_order() {
    let plan = macos_plan("/c", "/tmp/video.mp4", 10, 10);
    // Nothing cached, Quick Look fails, sips succeeds and its file is read.
    let trace = run_plan(&plan, &mut |m| match m {
        RunMove::Check(0) => RunEvent::Exists(false),
        RunMove::Run(1) => RunEvent::Finished(false),
        RunMove::Run(2) => RunEvent::Finished(true),
        RunMove::Check(2) => RunEvent::Exists(true),
        RunMove::Read(2) => RunEvent::Read(Some(vec![1, 2])),
        other => panic!("unexpected {:?}", other),
    });
    assert_eq!(trace, vec!["Check(0)", "Run(1)", "Run(2)", "Check(2)", "Read(2)", "Deliver(2, [1, 2])"]);
}

#[test]
fn runner_stops_on_read_failure_and_gives_up_when_empty() {
    let plan = macos_plan("/c", "/tmp/video.mp4", 10, 10);
    let trace = run_plan(&plan, &mut |m| match m {
        RunMove::Check(0) => RunEvent::Exists(true),
        RunMove::Read(0) => RunEvent::Read(None),
        other => panic!("unexpected {:?}", other),
    });
    assert_eq!(trace.last().unwrap(), "Fail");
    let trace = run_plan(&plan, &mut |m| match m {
        RunMove::Run(_) => RunEvent::Finished(true),
        RunMove::Check(_) => RunEvent::Exists(false),
        other => panic!("unexpected {:?}", other),
    });
    assert_eq!(trace, vec!["Check(0)", "Run(1)", "Check(1)", "Run(2)", "Check(2)", "GiveUp"]);
    let empty = Plan { make_dir: None, attempts: Vec::new() };
    let trace = run_plan(&empty, &mut |_| panic!("no moves expected"));
    assert_eq!(trace, vec!["GiveUp"]);
}

fn with_text(png: &[u8], entries: &[(&str, &str)]) -> Vec<u8> {
    fn crc32(bytes: &[u8]) -> u32 {
        let mut crc = 0xffff_ffffu32;
        for &b in bytes {
            crc ^= b as u32;
            for _ in 0..8 {
                crc = if crc & 1 != 0 { (crc >> 1) ^ 0xedb8_8320 } else { crc >> 1 };
            }
        }
        !crc
    }
    let iend = png.len() - 12;
    let mut out = png[..iend].to_vec();
    for (key, value) in entries {
        let mut data = key.as_bytes().to_vec();
        data.push(0);
        data.extend_from_slice(value.as_bytes());
        out.extend_from_slice(&(data.len() as u32).to_be_bytes());
        let mut typed = b"tEXt".to_vec();
        typed.extend_from_slice(&data);
        out.extend_from_slice(&typed);
        out.extend_from_slice(&crc32(&typed).to_be_bytes());
    }
    out.extend_from_slice(&png[iend..]);
    out
}

#[test]
fn cached_thumbnail_freshness() {
    let uri = "file:///home/user/a%20b.png";
    let fresh = with_text(&png(4, 4), &[("Software", "test"), ("Thumb::URI", uri), ("Thumb::MTime", "1700000000")]);
    assert!(image::load_from_memory(&fresh).is_ok());
    assert!(is_current_thumbnail(&fresh, uri, 1_700_000_000));
    assert!(!is_current_thumbnail(&fresh, uri, 1_700_000_001));
    assert!(!is_current_thumbnail(&fresh, "file:///other", 1_700_000_000));
    let no_uri = with_text(&png(4, 4), &[("Thumb::MTime", "1700000000")]);
    assert!(!is_current_thumbnail(&no_uri, uri, 1_700_000_000));
    assert!(!is_current_thumbnail(&png(4, 4), uri, 0));
    assert!(!is_current_thumbnail(b"not a png", uri, 0));
    let (s, e) = png_text_range(&fresh, "Thumb::MTime").unwrap();
    assert_eq!(&fresh[s..e], b"1700000000");
    assert_eq!(png_text_range(&fresh, "Thumb::Size"), None);
    assert!(is_png_file(&fresh));
    assert!(!is_png_file(b"\x89PNG\r\n\x1a"));
    assert!(!is_png_file(b"GIF89a...."));
}

#[test]
fn runner_passes_over_stale_cached_thumbnails() {
    let uri = "file:///home/user/a%20b.png";
    let plan = freedesktop_plan("/home/user/a b.png", Some("/x".to_string()), None, 7).unwrap();
    let stale = with_text(&png(4, 4), &[("Thumb::URI", uri), ("Thumb::MTime", "6")]);
    let fresh = with_text(&png(4, 4), &[("Thumb::URI", uri), ("Thumb::MTime", "7")]);
    let fresh_clone = fresh.clone();
    let trace = run_plan(&plan, &mut |m| match m {
        RunMove::Check(0) | RunMove::Check(1) => RunEvent::Exists(true),
        RunMove::Read(0) => RunEvent::Read(Some(stale.clone())),
        RunMove::Read(1) => RunEvent::Read(Some(fresh_clone.clone())),
        other => panic!("unexpected {:?}", other),
    });
    assert_eq!(&trace[..4], &["Check(0)", "Read(0)", "Check(1)", "Read(1)"]);
    assert!(trace[4].starts_with("Deliver(1,"));
    let trace = run_plan(&plan, &mut |m| match m {
        RunMove::Check(_) => RunEvent::Exists(true),
        RunMove::Read(_) => RunEvent::Read(Some(stale.clone())),
        other => panic!("unexpected {:?}", other),
    });
    assert_eq!(trace.last().unwrap(), "GiveUp");
    assert_eq!(trace.len(), 9);
}

#[test]
fn native_thumbnails_are_kept_under_the_limit() {
    let at_native = || {
        let (job, _) = Job::start(request("/a.png"), Platform::Linux, "/tmp".to_string());
        match job.advance(Event::Exists(true)) {
            Step::Continue(j, Action::RunNative) => j,
            other => panic!("unexpected {:?}", other),
        }
    };
    let mut state: u32 = 7;
    let noisy = image::RgbImage::from_fn(600, 600, |_, _| {
        state = state.wrapping_mul(1103515245).wrapping_add(12345);
        image::Rgb([(state >> 16) as u8, (state >> 8) as u8, (state >> 24) as u8])
    });
    let mut buf = Cursor::new(Vec::new());
    image::DynamicImage::ImageRgb8(noisy).write_to(&mut buf, image::ImageFormat::Png).unwrap();
    let big = buf.into_inner();
    assert!(big.len() > MAX_THUMBNAIL_SIZE);
    match at_native().advance(Event::Native(Some(big))) {
        Step::Finish(Ok(resp)) => assert!(resp.thumbnail.len() <= MAX_THUMBNAIL_SIZE),
        other => panic!("unexpected {:?}", other),
    }
    let junk = vec![3u8; MAX_THUMBNAIL_SIZE + 1];
    assert!(matches!(
        at_native().advance(Event::Native(Some(junk))),
        Step::Continue(_, Action::ReadHeader(HEADER_LEN))
    ));
    // Bytes that are not a PNG file are passed over, however small.
    assert!(matches!(
        at_native().advance(Event::Native(Some(b"GIF89a....".to_vec()))),
        Step::Continue(_, Action::ReadHeader(HEADER_LEN))
    ));
}

#[test]
fn runner_reports_unnamed_output() {
    let plan = macos_plan("/c", "/", 10, 10);
    let trace = run_plan(&plan, &mut |m| match m {
        RunMove::Check(0) => RunEvent::Exists(false),
        RunMove::Run(1) => RunEvent::Finished(true),
        other => panic!("unexpected {:?}", other),
    });
    assert_eq!(trace.last().unwrap(), "Unnamed(1)");
}

#[test]
fn missing_file_is_file_not_found() {
    let (job, _) = Job::start(request("/no/such/file"), Platform::Linux, "/tmp".to_string());
    match job.advance(Event::Exists(false)) {
        Step::Finish(Err(Error::FileNotFound(p))) => assert_eq!(p, "/no/such/file"),
        other => panic!("unexpected {:?}", other),
    }
}

#[test]
fn native_thumbnail_is_used_first() {
    let (job, _) = Job::start(request("/a.png"), Platform::Linux, "/tmp".to_string());
    let job = match job.advance(Event::Exists(true)) {
        Step::Continue(j, Action::RunNative) => j,
        other => panic!("unexpected {:?}", other),
    };
    match job.advance(Event::Native(Some(png(2, 2)))) {
        Step::Finish(Ok(resp)) => {
            assert_eq!(resp.thumbnail, png(2, 2));
            assert_eq!(resp.mime_type, "image/png");
        }
        other => panic!("unexpected {:?}", other),
    }
    let (job, _) = Job::start(request("/a.png"), Platform::MacOs, "/tmp".to_string());
    let job = match job.advance(Event::Exists(true)) {
        Step::Continue(j, Action::RunNative) => j,
        other => panic!("unexpected {:?}", other),
    };
    assert!(matches!(job.advance(Event::Native(None)), Step::Continue(_, Action::ReadHeader(HEADER_LEN))));
}

#[test]
fn image_file_pipeline() {
    let job = job_at_header("/pics/a.png");
    let data = png(256, 512);
    let job = match job.advance(Event::Header(Some(data[..64].to_vec()))) {
        Step::Continue(j, Action::ReadFile) => {
            assert_eq!(j.stage, Stage::ImageFile);
            j
        }
        other => panic!("unexpected {:?}", other),
    };
    match job.advance(Event::File(Some(data))) {
        Step::Finish(Ok(resp)) => {
            assert_eq!(resp.mime_type, "image/png");
            let img = image::load_from_memory(&resp.thumbnail).unwrap();
            assert_eq!((img.width(), img.height()), (64, 128));
        }
        other => panic!("unexpected {:?}", other),
    }
    let job = job_at_header("/pics/a.png");
    let job = match job.advance(Event::Header(Some(png(2, 2)))) {
        Step::Continue(j, _) => j,
        other => panic!("unexpected {:?}", other),
    };
    assert!(matches!(job.advance(Event::File(None)), Step::FailIo));
}

#[test]
fn header_failures_and_unknown_files() {
    assert!(matches!(job_at_header("/f").advance(Event::Header(None)), Step::FailIo));
    assert!(matches!(
        job_at_header("/f").advance(Event::Header(Some(vec![0u8; 32]))),
        Step::Finish(Err(Error::NotFound))
    ));
}

#[test]
fn audio_without_cover_is_not_found() {
    let header = b"ID3\x04\x00\x00\x00\x00\x00\x00".to_vec();
    let job = match job_at_header("/song.mp3").advance(Event::Header(Some(header.clone()))) {
        Step::Continue(j, Action::ReadFile) => {
            assert_eq!(j.stage, Stage::AudioFile);
            j
        }
        other => panic!("unexpected {:?}", other),
    };
    assert!(matches!(job.advance(Event::File(Some(header))), Step::Finish(Err(Error::NotFound))));
    let job = match job_at_header("/song.mp3").advance(Event::Header(Some(b"ID3\x04\x00\x00\x00\x00\x00\x00".to_vec()))) {
        Step::Continue(j, _) => j,
        other => panic!("unexpected {:?}", other),
    };
    assert!(matches!(job.advance(Event::File(None)), Step::Finish(Err(Error::NotFound))));
}

#[test]
fn pdf_pipeline_runs_pdftoppm() {
    let job = match job_at_header("/tmp/video.mp4").advance(Event::Header(Some(b"%PDF-1.4\n".to_vec()))) {
        Step::Continue(j, Action::RunPlan(plan)) => {
            assert_eq!(plan.attempts[0].run.as_ref().unwrap().program, "pdftoppm");
            assert_eq!(
                plan.attempts[0].output,
                Some(format!("/tmp/p_thumb_{}.png", HASH))
            );
            assert_eq!(j.stage, Stage::Produced);
            j
        }
        other => panic!("unexpected {:?}", other),
    };
    match job.advance(Event::Produced(Some(png(3, 3)))) {
        Step::Finish(Ok(resp)) => assert_eq!(resp.thumbnail, png(3, 3)),
        other => panic!("unexpected {:?}", other),
    }
}

#[test]
fn produced_failures_are_not_found() {
    let header = b"\x00\x00\x00\x18ftypmp42\x00\x00\x00\x00mp42isom".to_vec();
    let at_produced = || match job_at_header("/v.mp4").advance(Event::Header(Some(header.clone()))) {
        Step::Continue(j, Action::RunPlan(plan)) => {
            assert_eq!(plan.attempts[0].run.as_ref().unwrap().program, "ffmpeg");
            j
        }
        other => panic!("unexpected {:?}", other),
    };
    assert!(matches!(at_produced().advance(Event::Produced(None)), Step::Finish(Err(Error::NotFound))));
    let junk = vec![1u8; MAX_THUMBNAIL_SIZE + 10];
    assert!(matches!(at_produced().advance(Event::Produced(Some(junk))), Step::Finish(Err(Error::NotFound))));
    assert!(matches!(at_produced().advance(Event::Produced(Some(vec![1, 2, 3]))), Step::Finish(Err(Error::NotFound))));
}
