use vstd::prelude::*;

use crate::error::{Error, ErrorKind};
use crate::imaging::{
    cover_thumbnail, id3_cover, image_thumbnail, image_thumbnail_of, optimize_thumbnail_size,
    optimized, MAX_THUMBNAIL_SIZE,
};
use crate::pngtext::{is_png, is_png_file};
use crate::media::{media_kind_of, mime_of_header, sniff_media_kind, MediaKind};
use crate::models::{edge_or_default, png_mime, GetThumbnailRequest, GetThumbnailResponse};
use crate::plans::{
    is_command_plan, pdf_args, pdf_output, pdf_plan, pdf_prefix, video_args, video_output,
    video_plan, Plan,
};

verus! {

/// How many bytes of a file are read to recognize its type.
pub const HEADER_LEN: usize = 8192;

/// The platform whose own thumbnails are looked for first.
#[derive(Debug, Clone, Copy, PartialEq, Eq, Structural)]
pub enum Platform {
    Linux,
    MacOs,
    Windows,
    Other,
}

/// Where a thumbnail job stands.
#[derive(Debug, Clone, Copy, PartialEq, Eq, Structural)]
pub enum Stage {
    /// Waiting to learn whether the file exists.
    CheckFile,
    /// Waiting for the platform's own thumbnail.
    Native,
    /// Waiting for the first bytes of the file.
    Header,
    /// Waiting for the bytes of an image file.
    ImageFile,
    /// Waiting for the bytes of an audio file.
    AudioFile,
    /// Waiting for the image that an external program produced.
    Produced,
}

/// A thumbnail request under way.
#[derive(Debug)]
pub struct Job {
    pub path: String,
    pub width: u32,
    pub height: u32,
    pub platform: Platform,
    pub temp_dir: String,
    pub stage: Stage,
}

/// What the caller saw when it carried out the last action.
#[derive(Debug)]
pub enum Event {
    /// Whether the file exists.
    Exists(bool),
    /// The platform's own thumbnail, where it has one.
    Native(Option<Vec<u8>>),
    /// The first bytes of the file, or `None` where reading failed.
    Header(Option<Vec<u8>>),
    /// All bytes of the file, or `None` where reading failed.
    File(Option<Vec<u8>>),
    /// What the plan produced, or `None` where it produced nothing.
    Produced(Option<Vec<u8>>),
}

/// What the caller is to do next.
#[derive(Debug)]
pub enum Action {
    /// Find out whether the job's file exists.
    CheckExists,
    /// Look for the platform's own thumbnail of the file.
    RunNative,
    /// Read at most this many bytes from the start of the file, in one read.
    ReadHeader(usize),
    /// Read the whole file.
    ReadFile,
    /// Carry out the plan and report the file it yields.
    RunPlan(Plan),
}

/// The result of one step of a job.
#[derive(Debug)]
pub enum Step {
    /// The job goes on.
    Continue(Job, Action),
    /// The job is over, with this answer.
    Finish(Result<GetThumbnailResponse, Error>),
    /// The job failed with the I/O error of the last action.
    FailIo,
}

/// Whether `event` answers the action that left a job at `stage`.
pub open spec fn answers(stage: Stage, event: Event) -> bool {
    match stage {
        Stage::CheckFile => event is Exists,
        Stage::Native => event is Native,
        Stage::Header => event is Header,
        Stage::ImageFile | Stage::AudioFile => event is File,
        Stage::Produced => event is Produced,
    }
}

/// How far a job has come.
pub open spec fn rank(stage: Stage) -> int {
    match stage {
        Stage::CheckFile => 0,
        Stage::Native => 1,
        Stage::Header => 2,
        Stage::ImageFile => 3,
        Stage::AudioFile => 3,
        Stage::Produced => 3,
    }
}

/// The job is over with the thumbnail bytes or the kind of error that
/// `expected` gives.
pub open spec fn finishes_as(s: Step, expected: Result<Seq<u8>, ErrorKind>) -> bool {
    match s {
        Step::Finish(Ok(resp)) => expected == Ok::<Seq<u8>, ErrorKind>(resp.thumbnail@),
        Step::Finish(Err(e)) => expected == Err::<Seq<u8>, ErrorKind>(e@),
        _ => false,
    }
}

/// Whether bytes handed over by the platform or an external program are
/// taken: a PNG file that size-keeping can keep under the limit.
pub open spec fn usable(d: Seq<u8>) -> bool {
    is_png(d) && optimized(d) is Ok
}

/// The job goes on with the same request, at `stage`.
pub open spec fn continues(old: Job, s: Step, stage: Stage) -> bool {
    s matches Step::Continue(j, _) && j.path@ == old.path@ && j.width == old.width && j.height
        == old.height && j.platform == old.platform && j.temp_dir@ == old.temp_dir@ && j.stage
        == stage
}

/// The action of a step that goes on.
pub open spec fn action_of(s: Step) -> Action
    recommends
        s is Continue,
{
    match s {
        Step::Continue(_, a) => a,
        _ => Action::CheckExists,
    }
}

fn finish_image(r: Result<Vec<u8>, Error>) -> (s: Step)
    requires
        r matches Ok(d) ==> d@.len() <= MAX_THUMBNAIL_SIZE && is_png(d@),
    ensures
        s matches Step::Finish(res) && match (r, res) {
            (Ok(d), Ok(resp)) => resp.thumbnail@ == d@ && resp.mime_type@ == png_mime(),
            (Err(e), Err(f)) => e@ == f@,
            _ => false,
        },
{
    match r {
        Ok(d) => Step::Finish(Ok(GetThumbnailResponse::png(d))),
        Err(e) => Step::Finish(Err(e)),
    }
}

impl Job {
    /// Starts a job for `request`, on `platform`, with `temp_dir` as the
    /// directory for files that external programs write: first find out
    /// whether the file exists.
    pub fn start(request: GetThumbnailRequest, platform: Platform, temp_dir: String) -> (r: (
        Job,
        Action,
    ))
        ensures
            r.0.path@ == request.path@,
            r.0.width == edge_or_default(request.width),
            r.0.height == edge_or_default(request.height),
            r.0.platform == platform,
            r.0.temp_dir@ == temp_dir@,
            r.0.stage == Stage::CheckFile,
            r.1 is CheckExists,
    {
        let (width, height) = request.dimensions();
        let job = Job {
            path: request.path,
            width,
            height,
            platform,
            temp_dir,
            stage: Stage::CheckFile,
        };
        (job, Action::CheckExists)
    }

    fn moved(self, stage: Stage, action: Action) -> (s: Step)
        ensures
            continues(self, s, stage),
            action_of(s) == action,
    {
        Step::Continue(Job { stage, ..self }, action)
    }

    /// The next step after `event`.
    ///
    /// A missing file is answered with [`Error::FileNotFound`]. Otherwise the
    /// platform's own thumbnail is taken where there is one, kept under the
    /// size limit like every other (one that is not a PNG file, or cannot be
    /// kept under the limit, is passed over); else the file's type is
    /// recognized from its first bytes, and images, the cover art of audio
    /// files, video frames (by `ffmpeg`) and the first page of PDFs (by
    /// `pdftoppm`) are made into PNG thumbnails kept under the size limit.
    /// Every other file is answered with [`Error::NotFound`].
    pub fn advance(self, event: Event) -> (s: Step)
        requires
            answers(self.stage, event),
        ensures
    // Every thumbnail handed out is a PNG.
            s matches Step::Finish(Ok(resp)) ==> resp.mime_type@ == png_mime(),
            // Every thumbnail handed out is PNG data within the size limit,
            // native ones included.
            s matches Step::Finish(Ok(resp)) ==> resp.thumbnail@.len() <= MAX_THUMBNAIL_SIZE
                && is_png(resp.thumbnail@),
            // A job only moves forward.
            s matches Step::Continue(j, _) ==> rank(j.stage) > rank(self.stage),
            // A job ends by its fourth step.
            rank(self.stage) == 3 ==> !(s is Continue),
            event == Event::Exists(false) ==> finishes_as(
                s,
                Err(ErrorKind::FileNotFound(self.path@)),
            ),
            event == Event::Exists(true) && self.platform != Platform::Other ==> continues(
                self,
                s,
                Stage::Native,
            ) && action_of(s) is RunNative,
            event == Event::Exists(true) && self.platform == Platform::Other ==> continues(
                self,
                s,
                Stage::Header,
            ) && action_of(s) == Action::ReadHeader(HEADER_LEN),
            event matches Event::Native(Some(d)) ==> if usable(d@) {
                finishes_as(s, optimized(d@))
            } else {
                continues(self, s, Stage::Header) && action_of(s) == Action::ReadHeader(HEADER_LEN)
            },
            event == Event::Native(None) ==> continues(self, s, Stage::Header) && action_of(s)
                == Action::ReadHeader(HEADER_LEN),
            event == Event::Header(None) ==> s is FailIo,
            event matches Event::Header(Some(h)) ==> match media_kind_of(mime_of_header(h@)) {
                MediaKind::Image => continues(self, s, Stage::ImageFile) && action_of(s) is ReadFile,
                MediaKind::Audio => continues(self, s, Stage::AudioFile) && action_of(s) is ReadFile,
                MediaKind::Video => continues(self, s, Stage::Produced) && (action_of(
                    s,
                ) matches Action::RunPlan(p) && is_command_plan(
                    p,
                    "ffmpeg"@,
                    video_args(
                        self.path@,
                        self.width,
                        self.height,
                        video_output(self.temp_dir@, self.path@),
                    ),
                    video_output(self.temp_dir@, self.path@),
                )),
                MediaKind::Pdf => continues(self, s, Stage::Produced) && (action_of(
                    s,
                ) matches Action::RunPlan(p) && is_command_plan(
                    p,
                    "pdftoppm"@,
                    pdf_args(self.path@, self.width, pdf_prefix(self.temp_dir@, self.path@)),
                    pdf_output(self.temp_dir@, self.path@),
                )),
                MediaKind::Other => finishes_as(s, Err(ErrorKind::NotFound)),
            },
            self.stage == Stage::ImageFile && event == Event::File(None) ==> s is FailIo,
            event matches Event::File(Some(b)) ==> (self.stage == Stage::ImageFile ==> finishes_as(
                s,
                image_thumbnail_of(b@, self.width, self.height),
            )),
            self.stage == Stage::AudioFile && event == Event::File(None) ==> finishes_as(
                s,
                Err(ErrorKind::NotFound),
            ),
            event matches Event::File(Some(b)) ==> (self.stage == Stage::AudioFile ==> match id3_cover(
                b@,
            ) {
                Some(picture) => finishes_as(s, image_thumbnail_of(picture, self.width, self.height)),
                None => finishes_as(s, Err(ErrorKind::NotFound)),
            }),
            event matches Event::Produced(Some(d)) ==> finishes_as(
                s,
                if usable(d@) {
                    optimized(d@)
                } else {
                    Err(ErrorKind::NotFound)
                },
            ),
            event == Event::Produced(None) ==> finishes_as(s, Err(ErrorKind::NotFound)),
    {
        match event {
            Event::Exists(found) => {
                if !found {
                    Step::Finish(Err(Error::FileNotFound(self.path)))
                } else if self.platform == Platform::Other {
                    self.moved(Stage::Header, Action::ReadHeader(HEADER_LEN))
                } else {
                    self.moved(Stage::Native, Action::RunNative)
                }
            },
            Event::Native(found) => match found {
                Some(d) => {
                    if is_png_file(d.as_slice()) {
                        match optimize_thumbnail_size(d) {
                            Ok(t) => Step::Finish(Ok(GetThumbnailResponse::png(t))),
                            Err(_) => self.moved(Stage::Header, Action::ReadHeader(HEADER_LEN)),
                        }
                    } else {
                        self.moved(Stage::Header, Action::ReadHeader(HEADER_LEN))
                    }
                },
                None => self.moved(Stage::Header, Action::ReadHeader(HEADER_LEN)),
            },
            Event::Header(header) => match header {
                None => Step::FailIo,
                Some(h) => match sniff_media_kind(h.as_slice()) {
                    MediaKind::Image => self.moved(Stage::ImageFile, Action::ReadFile),
                    MediaKind::Audio => self.moved(Stage::AudioFile, Action::ReadFile),
                    MediaKind::Video => {
                        let plan = video_plan(
                            self.path.as_str(),
                            self.width,
                            self.height,
                            self.temp_dir.as_str(),
                        );
                        self.moved(Stage::Produced, Action::RunPlan(plan))
                    },
                    MediaKind::Pdf => {
                        let plan = pdf_plan(
                            self.path.as_str(),
                            self.width,
                            self.height,
                            self.temp_dir.as_str(),
                        );
                        self.moved(Stage::Produced, Action::RunPlan(plan))
                    },
                    MediaKind::Other => Step::Finish(Err(Error::NotFound)),
                },
            },
            Event::File(file) => {
                if self.stage == Stage::ImageFile {
                    match file {
                        None => Step::FailIo,
                        Some(b) => finish_image(
                            image_thumbnail(b.as_slice(), self.width, self.height),
                        ),
                    }
                } else {
                    match file {
                        None => Step::Finish(Err(Error::NotFound)),
                        Some(b) => match cover_thumbnail(b.as_slice(), self.width, self.height) {
                            Some(r) => finish_image(r),
                            None => Step::Finish(Err(Error::NotFound)),
                        },
                    }
                }
            },
            Event::Produced(produced) => match produced {
                None => Step::Finish(Err(Error::NotFound)),
                Some(d) => {
                    if is_png_file(d.as_slice()) {
                        match optimize_thumbnail_size(d) {
                            Ok(t) => Step::Finish(Ok(GetThumbnailResponse::png(t))),
                            Err(_) => Step::Finish(Err(Error::NotFound)),
                        }
                    } else {
                        Step::Finish(Err(Error::NotFound))
                    }
                },
            },
        }
    }
}

} // verus!
