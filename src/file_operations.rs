use vstd::prelude::*;
use crate::paths::{file_name_of, path_file_name};
use crate::text::{contains_char, decimal, decimal_string};
use crate::create_operations::{
    MAX_NAME_COUNTER,
    contains_name,
    first_free_name,
    name_taken,
    numbered_name,
};
use crate::folder::views;

verus! {

#[derive(Clone, Copy, Debug, PartialEq, Eq, Structural)]
pub enum OperationType {
    Copy,
    Cut,
}

/// Paths put on the clipboard, and whether they are to be copied or moved.
pub struct ClipboardData {
    pub operation: OperationType,
    pub source_paths: Vec<String>,
}

/// Outcome of a file operation.
pub enum FileOperationResult {
    Success,
    Error(String),
    /// Asks the user to confirm, with this message (used before deleting).
    NeedsConfirmation(String),
}

/// The clipboard of copied or cut paths and the last error. The copying,
/// moving and removing on disk is done by the caller, which reports back.
pub struct FileOperations {
    clipboard: Option<ClipboardData>,
    last_error: Option<String>,
}

pub open spec fn operation_label(op: OperationType) -> Seq<char> {
    match op {
        OperationType::Copy => "复制"@,
        OperationType::Cut => "剪切"@,
    }
}

/// Text of the delete confirmation for `paths`: the single entry's file
/// name (the path itself where it has none), or the number of entries.
pub open spec fn delete_prompt(paths: Seq<String>) -> Seq<char> {
    if paths.len() == 1 {
        let p = paths[0]@;
        "确定要删除 \""@ + match file_name_of(p) {
            Some(n) => n,
            None => p,
        } + "\" 吗？"@
    } else {
        "确定要删除这 "@ + decimal(paths.len()) + " 个项目吗？"@
    }
}

impl FileOperations {
    pub closed spec fn clipboard_view(&self) -> Option<(OperationType, Seq<String>)> {
        match self.clipboard {
            Some(c) => Some((c.operation, c.source_paths@)),
            None => None,
        }
    }

    pub closed spec fn last_error_view(&self) -> Option<String> {
        self.last_error
    }

    pub fn new() -> (r: FileOperations)
        ensures
            r.clipboard_view() is None,
            r.last_error_view() is None,
    {
        FileOperations { clipboard: None, last_error: None }
    }

    /// Puts `paths` on the clipboard for copying.
    pub fn copy_to_clipboard(&mut self, paths: Vec<String>)
        ensures
            final(self).clipboard_view() == Some((OperationType::Copy, paths@)),
            final(self).last_error_view() is None,
    {
        self.clipboard = Some(ClipboardData { operation: OperationType::Copy, source_paths: paths });
        self.last_error = None;
    }

    /// Puts `paths` on the clipboard for moving.
    pub fn cut_to_clipboard(&mut self, paths: Vec<String>)
        ensures
            final(self).clipboard_view() == Some((OperationType::Cut, paths@)),
            final(self).last_error_view() is None,
    {
        self.clipboard = Some(ClipboardData { operation: OperationType::Cut, source_paths: paths });
        self.last_error = None;
    }

    /// The clipboard's contents, for the caller to copy or move on disk.
    pub fn clipboard(&self) -> (r: Option<&ClipboardData>)
        ensures
            match r {
                Some(c) => self.clipboard_view() == Some((c.operation, c.source_paths@)),
                None => self.clipboard_view() is None,
            },
    {
        self.clipboard.as_ref()
    }

    /// Completes a paste into a folder after the caller copied or moved the
    /// clipboard's paths, stopping at the first failure, whose message is
    /// `failure`. An empty clipboard is an error; a completed move empties
    /// the clipboard, a copy keeps it.
    pub fn paste_from_clipboard(&mut self, failure: Option<String>) -> (r: FileOperationResult)
        ensures
            match old(self).clipboard_view() {
                None => (r matches FileOperationResult::Error(m) && m@ == "剪贴板为空"@)
                    && final(self).clipboard_view() is None,
                Some((op, _)) => match failure {
                    Some(e) => (r matches FileOperationResult::Error(m) && m@ == (if op
                        == OperationType::Copy {
                        "复制失败: "@
                    } else {
                        "移动失败: "@
                    }) + e@) && final(self).clipboard_view() == old(self).clipboard_view(),
                    None => r is Success && (if op == OperationType::Cut {
                        final(self).clipboard_view() is None
                    } else {
                        final(self).clipboard_view() == old(self).clipboard_view()
                    }),
                },
            },
            final(self).last_error_view() == old(self).last_error_view(),
    {
        let op = match &self.clipboard {
            None => {
                return FileOperationResult::Error(String::from_str("剪贴板为空"));
            },
            Some(c) => c.operation,
        };
        match failure {
            Some(e) => {
                let mut m = match op {
                    OperationType::Copy => String::from_str("复制失败: "),
                    OperationType::Cut => String::from_str("移动失败: "),
                };
                m.append(e.as_str());
                FileOperationResult::Error(m)
            },
            None => {
                if op == OperationType::Cut {
                    self.clipboard = None;
                }
                FileOperationResult::Success
            },
        }
    }

    /// Checks a rename to `new_name` before it is done: empty names, names
    /// with a separator and names already present (`target_exists`) are
    /// refused with their message; `None` means it may go ahead.
    pub fn rename_file(&self, new_name: &str, target_exists: bool) -> (r: Option<
        FileOperationResult,
    >)
        ensures
            new_name@.len() == 0 ==> (r matches Some(FileOperationResult::Error(m)) && m@
                == "文件名不能为空"@),
            new_name@.len() > 0 && new_name@.contains('/') ==> (r matches Some(
                FileOperationResult::Error(m),
            ) && m@ == "文件名包含非法字符"@),
            new_name@.len() > 0 && !new_name@.contains('/') && target_exists ==> (r matches Some(
                FileOperationResult::Error(m),
            ) && m@ == "目标文件已存在"@),
            r is None <==> (new_name@.len() > 0 && !new_name@.contains('/') && !target_exists),
    {
        if new_name.is_empty() {
            return Some(FileOperationResult::Error(String::from_str("文件名不能为空")));
        }
        if self.contains_invalid_chars(new_name) {
            return Some(FileOperationResult::Error(String::from_str("文件名包含非法字符")));
        }
        if target_exists {
            return Some(FileOperationResult::Error(String::from_str("目标文件已存在")));
        }
        None
    }

    /// The outcome once the rename was done, or failed with `failure`.
    pub fn renamed(&self, failure: Option<String>) -> (r: FileOperationResult)
        ensures
            match failure {
                Some(e) => (r matches FileOperationResult::Error(m) && m@ == "重命名失败: "@ + e@),
                None => r is Success,
            },
    {
        match failure {
            Some(e) => {
                let mut m = String::from_str("重命名失败: ");
                m.append(e.as_str());
                FileOperationResult::Error(m)
            },
            None => FileOperationResult::Success,
        }
    }

    /// Asks for confirmation before deleting `paths`; nothing selected is an
    /// error.
    pub fn delete_files(&self, paths: &Vec<String>) -> (r: FileOperationResult)
        ensures
            paths@.len() == 0 ==> (r matches FileOperationResult::Error(m) && m@
                == "没有选择要删除的文件"@),
            paths@.len() > 0 ==> (r matches FileOperationResult::NeedsConfirmation(m) && m@
                == delete_prompt(paths@)),
    {
        if paths.len() == 0 {
            return FileOperationResult::Error(String::from_str("没有选择要删除的文件"));
        }
        let mut m = String::from_str("");
        if paths.len() == 1 {
            m.append("确定要删除 \"");
            match path_file_name(paths[0].as_str()) {
                Some(n) => m.append(n.as_str()),
                None => m.append(paths[0].as_str()),
            }
            m.append("\" 吗？");
        } else {
            m.append("确定要删除这 ");
            m.append(decimal_string(paths.len() as u64).as_str());
            m.append(" 个项目吗？");
        }
        proof {
            reveal_strlit("");
        }
        FileOperationResult::NeedsConfirmation(m)
    }

    /// Completes a confirmed delete after the caller removed the paths,
    /// stopping at the first failure, whose message is `failure`.
    pub fn confirm_delete(&self, failure: Option<String>) -> (r: FileOperationResult)
        ensures
            match failure {
                Some(e) => (r matches FileOperationResult::Error(m) && m@ == "删除失败: "@ + e@),
                None => r is Success,
            },
    {
        match failure {
            Some(e) => {
                let mut m = String::from_str("删除失败: ");
                m.append(e.as_str());
                FileOperationResult::Error(m)
            },
            None => FileOperationResult::Success,
        }
    }

    pub fn get_last_error(&self) -> (r: Option<String>)
        ensures
            r == self.last_error_view(),
    {
        match &self.last_error {
            Some(e) => Some(e.clone()),
            None => None,
        }
    }

    pub fn has_clipboard_content(&self) -> (r: bool)
        ensures
            r == self.clipboard_view() is Some,
    {
        self.clipboard.is_some()
    }

    /// "复制 3 个项目" or "剪切 3 个项目" for a clipboard of three paths.
    pub fn get_clipboard_description(&self) -> (r: Option<String>)
        ensures
            match self.clipboard_view() {
                Some((op, paths)) => (r matches Some(d) && d@ == operation_label(op) + " "@
                    + decimal(paths.len()) + " 个项目"@),
                None => r is None,
            },
    {
        match &self.clipboard {
            Some(c) => {
                let mut d = match c.operation {
                    OperationType::Copy => String::from_str("复制"),
                    OperationType::Cut => String::from_str("剪切"),
                };
                d.append(" ");
                d.append(decimal_string(c.source_paths.len() as u64).as_str());
                d.append(" 个项目");
                Some(d)
            },
            None => None,
        }
    }

    /// A free name for a copy of a file called `stem` (plus `.` and `ext`
    /// when it has an extension) in a folder holding `existing`: the name
    /// itself if free, else `stem_1.ext`, `stem_2.ext`, ..., or `None` when
    /// every counter up to 9999 is taken.
    pub fn generate_unique_name(&self, existing: &Vec<String>, stem: &str, ext: Option<&str>) -> (r:
        Option<String>)
        ensures
            ({
                let close = match ext {
                    Some(e) => "."@ + e@,
                    None => Seq::<char>::empty(),
                };
                if !name_taken(views(existing@), stem@ + close) {
                    r matches Some(n) && n@ == stem@ + close
                } else {
                    match first_free_name(views(existing@), stem@, "_"@, close, 1) {
                        Some(n) => (r matches Some(m) && m@ == n),
                        None => r is None,
                    }
                }
            }),
    {
        let mut close = String::new();
        if let Some(e) = ext {
            close.append(".");
            close.append(e);
            assert(close@ =~= "."@ + e@);
        } else {
            assert(close@ =~= Seq::<char>::empty());
        }
        let mut whole = String::from_str(stem);
        whole.append(close.as_str());
        if !contains_name(existing, whole.as_str()) {
            proof {
                reveal_strlit("");
            }
            return Some(whole);
        }
        let mut k: u64 = 1;
        while k <= MAX_NAME_COUNTER
            invariant
                1 <= k <= MAX_NAME_COUNTER + 1,
                close@ == match ext {
                    Some(e) => "."@ + e@,
                    None => Seq::<char>::empty(),
                },
                name_taken(views(existing@), stem@ + close@),
                first_free_name(views(existing@), stem@, "_"@, close@, 1) == first_free_name(
                    views(existing@),
                    stem@,
                    "_"@,
                    close@,
                    k as nat,
                ),
            decreases MAX_NAME_COUNTER + 1 - k,
        {
            let mut candidate = String::from_str(stem);
            candidate.append("_");
            candidate.append(decimal_string(k).as_str());
            candidate.append(close.as_str());
            if !contains_name(existing, candidate.as_str()) {
                proof {
                    assert(candidate@ == numbered_name(stem@, "_"@, close@, k as nat));
                }
                return Some(candidate);
            }
            k = k + 1;
        }
        None
    }

    /// Whether `name` holds a character that file names may not: a path
    /// separator.
    pub fn contains_invalid_chars(&self, name: &str) -> (r: bool)
        ensures
            r == name@.contains('/'),
    {
        contains_char(name, '/')
    }
}

} // verus!
