//! The file pickers of the push page and of the hook editor: what picked,
//! dropped and hovering files do to the session.

use crate::page::PageView;
use crate::session::{SessionView, TemplateApp};
use crate::text::lossy_text;
use vstd::prelude::*;

verus! {

/// A file that the operator drags over the window, as far as the window
/// system tells about it.
#[derive(Clone, Debug, PartialEq, Eq)]
pub struct HoveredFile {
    /// Where the file lies, if the window system says so.
    pub path: Option<String>,
    /// The media type of the file; empty if unknown.
    pub mime: String,
}

/// What a [`HoveredFile`] holds, with every string as its characters.
pub struct HoveredFileView {
    pub path: Option<Seq<char>>,
    pub mime: Seq<char>,
}

impl View for HoveredFile {
    type V = HoveredFileView;

    open spec fn view(&self) -> HoveredFileView {
        HoveredFileView { path: self.path.deep_view(), mime: self.mime@ }
    }
}

impl DeepView for HoveredFile {
    type V = HoveredFileView;

    open spec fn deep_view(&self) -> HoveredFileView {
        self@
    }
}

/// The line that stands for one hovering file: its path if known, else its
/// media type if known, else three question marks; each on a line of its
/// own.
pub open spec fn hovered_line(file: HoveredFileView) -> Seq<char> {
    match file.path {
        Some(path) => "\n"@ + path,
        None => if file.mime.len() > 0 {
            "\n"@ + file.mime
        } else {
            "\n???"@
        },
    }
}

/// The heading of the drop preview, followed by the line of each of
/// `files` in order.
pub open spec fn drop_preview_text(files: Seq<HoveredFileView>) -> Seq<char>
    decreases files.len(),
{
    if files.len() == 0 {
        "Dropping files:\n"@
    } else {
        drop_preview_text(files.drop_last()) + hovered_line(files.last())
    }
}

/// The text to lay over the window while files hover over it: a heading and
/// one line per file. `None` when nothing hovers.
pub fn drop_preview(files: &Vec<HoveredFile>) -> (text: Option<String>)
    ensures
        files.len() == 0 ==> text is None,
        files.len() > 0 ==> (text matches Some(t) && t@ == drop_preview_text(files.deep_view())),
{
    if files.len() == 0 {
        return None;
    }
    let ghost views = files.deep_view();
    let mut text = "Dropping files:\n".to_owned();
    let mut i: usize = 0;
    while i < files.len()
        invariant
            i <= files.len(),
            views == files.deep_view(),
            text@ == drop_preview_text(views.take(i as int)),
        decreases files.len() - i,
    {
        let file = &files[i];
        match &file.path {
            Some(path) => {
                text.append("\n");
                text.append(path.as_str());
            },
            None => {
                if !file.mime.as_str().is_empty() {
                    text.append("\n");
                    text.append(file.mime.as_str());
                } else {
                    text.append("\n???");
                }
            },
        }
        proof {
            let longer = views.take(i + 1);
            assert(longer.drop_last() =~= views.take(i as int));
        }
        i += 1;
    }
    assert(views.take(i as int) =~= views);
    Some(text)
}

/// The dropped files that the session remembers after an update in which
/// `dropped` were dropped: those, or the ones before if there were none.
pub open spec fn remembered_drop(s: SessionView, dropped: Seq<Seq<char>>) -> Seq<Seq<char>> {
    if dropped.len() > 0 {
        dropped
    } else {
        s.dropped_files
    }
}

/// The session that follows `s` after one update of the push page's file
/// picker, in which the operator picked `picked` in the file dialog, if it
/// was open, and dropped `dropped` onto the window.
pub open spec fn after_push_picker(
    s: SessionView,
    picked: Option<Seq<Seq<char>>>,
    dropped: Seq<Seq<char>>,
) -> SessionView {
    match picked {
        Some(files) => SessionView {
            page: PageView::Push { files: Some(files) },
            push_files: None,
            dropped_files: remembered_drop(s, dropped),
            ..s
        },
        None => SessionView { dropped_files: remembered_drop(s, dropped), ..s },
    }
}

/// One update of the file picker of the push page. `picked` holds the
/// files that the operator chose in the file dialog during this update, if
/// any: the push page opens with them. `dropped` holds the files that were
/// dropped onto the window during this update.
pub fn push_file_picker<H>(
    app: &mut TemplateApp<H>,
    picked: Option<Vec<String>>,
    dropped: Vec<String>,
)
    ensures
        final(app)@ == after_push_picker(old(app)@, picked.deep_view(), dropped.deep_view()),
        final(app).refresh == old(app).refresh,
{
    match picked {
        Some(files) => app.pick_push_files(files),
        None => {},
    }
    app.collect_dropped(dropped);
}

/// One update of the file picker of the hook editor. `opened` holds the
/// path and the contents of the script that the operator chose in the file
/// dialog during this update, if any: it goes into the editor. `dropped`
/// holds the files that were dropped onto the window during this update.
pub fn hook_file_picker<H>(
    app: &mut TemplateApp<H>,
    opened: Option<(String, Vec<u8>)>,
    dropped: Vec<String>,
)
    ensures
        opened matches Some(script) ==> final(app)@ == (SessionView {
            opened_hook: Some(script.0@),
            code: lossy_text(script.1@),
            dropped_files: remembered_drop(old(app)@, dropped.deep_view()),
            ..old(app)@
        }),
        opened matches Some(script) ==> (vstd::utf8::valid_utf8(script.1@) ==> final(app)@.code
            == vstd::utf8::decode_utf8(script.1@)),
        opened is None ==> final(app)@ == (SessionView {
            dropped_files: remembered_drop(old(app)@, dropped.deep_view()),
            ..old(app)@
        }),
        final(app).refresh == old(app).refresh,
{
    match opened {
        Some((path, contents)) => app.open_hook(path, &contents),
        None => {},
    }
    app.collect_dropped(dropped);
}

} // verus!
