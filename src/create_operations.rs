use vstd::prelude::*;
use crate::text::{contains_char, decimal, decimal_string, str_eq};
use crate::folder::views;

verus! {

/// Outcome of a create operation.
pub enum CreateOperationResult {
    Success,
    Error(String),
    /// The operation needs the user to confirm (an overwrite, say).
    NeedsConfirmation(String),
    /// The operation needs input from the user (a folder name, say).
    NeedsInput(String),
}

/// Creating folders: name checks and name suggestions.
pub struct CreateOperations {
    last_error: Option<String>,
}

/// Largest folder name accepted, in bytes.
pub const MAX_NAME_BYTES: usize = 255;

/// Tries made with a counter before falling back to a timestamp.
pub const MAX_NAME_COUNTER: u64 = 9999;

pub open spec fn name_taken(existing: Seq<Seq<char>>, n: Seq<char>) -> bool {
    existing.contains(n)
}

/// `base`, then `open`, the counter `k` and `close`.
pub open spec fn numbered_name(base: Seq<char>, open: Seq<char>, close: Seq<char>, k: nat) -> Seq<
    char,
> {
    base + open + decimal(k) + close
}

/// The first numbered name from counter `k` on that is not taken, if one
/// is free up to `MAX_NAME_COUNTER`.
pub open spec fn first_free_name(
    existing: Seq<Seq<char>>,
    base: Seq<char>,
    open: Seq<char>,
    close: Seq<char>,
    k: nat,
) -> Option<Seq<char>>
    decreases MAX_NAME_COUNTER + 1 - k,
{
    if k > MAX_NAME_COUNTER {
        None
    } else if !name_taken(existing, numbered_name(base, open, close, k)) {
        Some(numbered_name(base, open, close, k))
    } else {
        first_free_name(existing, base, open, close, k + 1)
    }
}

/// A name for a new entry among `existing`: `base` itself if free, else the
/// first free numbered name, else `base` followed by `_` and the clock's
/// seconds (any value of them).
pub open spec fn suggested_name(
    existing: Seq<Seq<char>>,
    base: Seq<char>,
    open: Seq<char>,
    close: Seq<char>,
    r: Seq<char>,
) -> bool {
    if !name_taken(existing, base) {
        r == base
    } else {
        match first_free_name(existing, base, open, close, 1) {
            Some(n) => r == n,
            None => exists|secs: nat| r == base + "_"@ + decimal(secs),
        }
    }
}

/// Whether `name` is one of `existing`.
pub fn contains_name(existing: &Vec<String>, name: &str) -> (r: bool)
    ensures
        r == name_taken(views(existing@), name@),
{
    let mut i: usize = 0;
    while i < existing.len()
        invariant
            i <= existing@.len(),
            forall|j: int| 0 <= j < i ==> existing@[j]@ != name@,
        decreases existing@.len() - i,
    {
        if str_eq(existing[i].as_str(), name) {
            proof {
                assert(views(existing@)[i as int] == name@);
            }
            return true;
        }
        i = i + 1;
    }
    proof {
        if views(existing@).contains(name@) {
            let j = choose|j: int| 0 <= j < views(existing@).len() && views(existing@)[j] == name@;
            assert(existing@[j]@ == name@);
        }
    }
    false
}

/// Relies on `std::time::SystemTime::now` and `SystemTime::duration_since`:
/// whole seconds since the Unix epoch, 0 for a clock set before it.
#[verifier::external_body]
fn unix_time_secs() -> u64 {
    std::time::SystemTime::now()
        .duration_since(std::time::UNIX_EPOCH)
        .map(|d| d.as_secs())
        .unwrap_or(0)
}

fn numbered(base: &str, open: &str, close: &str, k: u64) -> (r: String)
    ensures
        r@ == numbered_name(base@, open@, close@, k as nat),
{
    let mut s = String::from_str(base);
    s.append(open);
    s.append(decimal_string(k).as_str());
    s.append(close);
    s
}

/// A free name among `existing` for a new entry called `base`, numbering
/// it as `base` + `open` + counter + `close` while taken.
fn suggest_name(existing: &Vec<String>, base: &str, open: &str, close: &str) -> (r: String)
    ensures
        suggested_name(views(existing@), base@, open@, close@, r@),
{
    if !contains_name(existing, base) {
        return String::from_str(base);
    }
    let mut k: u64 = 1;
    while k <= MAX_NAME_COUNTER
        invariant
            1 <= k <= MAX_NAME_COUNTER + 1,
            name_taken(views(existing@), base@),
            first_free_name(views(existing@), base@, open@, close@, 1) == first_free_name(
                views(existing@),
                base@,
                open@,
                close@,
                k as nat,
            ),
        decreases MAX_NAME_COUNTER + 1 - k,
    {
        let candidate = numbered(base, open, close, k);
        if !contains_name(existing, candidate.as_str()) {
            proof {
                assert(first_free_name(views(existing@), base@, open@, close@, k as nat) == Some(
                    candidate@,
                ));
            }
            return candidate;
        }
        k = k + 1;
    }
    let secs = unix_time_secs();
    let mut s = String::from_str(base);
    s.append("_");
    s.append(decimal_string(secs).as_str());
    proof {
        assert(s@ == base@ + "_"@ + decimal(secs as nat));
        assert(first_free_name(views(existing@), base@, open@, close@, k as nat) is None);
        assert(exists|n: nat| s@ == base@ + "_"@ + decimal(n));
    }
    s
}

impl CreateOperations {
    pub closed spec fn last_error_view(&self) -> Option<String> {
        self.last_error
    }

    pub fn new() -> (r: CreateOperations)
        ensures
            r.last_error_view() is None,
    {
        CreateOperations { last_error: None }
    }

    pub fn get_last_error(&self) -> (r: Option<String>)
        ensures
            r == self.last_error_view(),
    {
        match &self.last_error {
            Some(e) => Some(e.clone()),
            None => None,
        }
    }

    /// Whether `name` holds a character that folder names may not: a path
    /// separator.
    pub fn contains_invalid_chars(&self, name: &str) -> (r: bool)
        ensures
            r == name@.contains('/'),
    {
        contains_char(name, '/')
    }

    /// Checks a proposed folder name: not empty, at most `MAX_NAME_BYTES`
    /// bytes, no separator.
    pub fn validate_folder_name(&self, name: &str) -> (r: Result<(), String>)
        ensures
            name@.len() == 0 ==> (r matches Err(e) && e@ == "文件夹名称不能为空"@),
            r is Ok <==> (name@.len() > 0 && name.len() <= MAX_NAME_BYTES
                && !name@.contains('/')),
    {
        if name.is_empty() {
            return Err(String::from_str("文件夹名称不能为空"));
        }
        if name.len() > MAX_NAME_BYTES {
            return Err(String::from_str("文件夹名称过长（最多255个字符）"));
        }
        if self.contains_invalid_chars(name) {
            return Err(String::from_str("文件夹名称包含非法字符"));
        }
        Ok(())
    }

    /// Checks a new folder `folder_name` before it is created: empty names,
    /// names with a separator and names already present (`target_exists`)
    /// are refused with their message; `None` means it may be created.
    pub fn create_folder(&self, folder_name: &str, target_exists: bool) -> (r: Option<
        CreateOperationResult,
    >)
        ensures
            folder_name@.len() == 0 ==> (r matches Some(CreateOperationResult::Error(m)) && m@
                == "文件夹名称不能为空"@),
            folder_name@.len() > 0 && folder_name@.contains('/') ==> (r matches Some(
                CreateOperationResult::Error(m),
            ) && m@ == "文件夹名称包含非法字符"@),
            folder_name@.len() > 0 && !folder_name@.contains('/') && target_exists ==> (r matches Some(
                CreateOperationResult::Error(m),
            ) && m@ == "文件夹已存在"@),
            r is None <==> (folder_name@.len() > 0 && !folder_name@.contains('/') && !target_exists),
    {
        if folder_name.is_empty() {
            return Some(CreateOperationResult::Error(String::from_str("文件夹名称不能为空")));
        }
        if self.contains_invalid_chars(folder_name) {
            return Some(CreateOperationResult::Error(String::from_str("文件夹名称包含非法字符")));
        }
        if target_exists {
            return Some(CreateOperationResult::Error(String::from_str("文件夹已存在")));
        }
        None
    }

    /// The outcome once the folder was created, or failed to be with the
    /// message `failure`.
    pub fn folder_created(&self, failure: Option<String>) -> (r: CreateOperationResult)
        ensures
            match failure {
                Some(e) => (r matches CreateOperationResult::Error(m) && m@ == "创建文件夹失败: "@
                    + e@),
                None => r is Success,
            },
    {
        match failure {
            Some(e) => {
                let mut m = String::from_str("创建文件夹失败: ");
                m.append(e.as_str());
                CreateOperationResult::Error(m)
            },
            None => CreateOperationResult::Success,
        }
    }

    /// A free folder name among `existing` based on `base`: `base`, then
    /// `base (1)`, `base (2)`, ..., and a timestamped name past 9999.
    pub fn generate_unique_folder_name(&self, existing: &Vec<String>, base: &str) -> (r: String)
        ensures
            suggested_name(views(existing@), base@, " ("@, ")"@, r@),
    {
        suggest_name(existing, base, " (", ")")
    }
}

/// Base name proposed for a new folder.
pub open spec fn default_folder_base() -> Seq<char> {
    "新建文件夹"@
}

/// The default name for a new folder among `existing`: 新建文件夹, then
/// 新建文件夹 1, 新建文件夹 2, ..., and a timestamped name past 9999.
pub fn generate_default_folder_name(existing: &Vec<String>) -> (r: String)
    ensures
        suggested_name(views(existing@), default_folder_base(), " "@, ""@, r@),
{
    suggest_name(existing, "新建文件夹", " ", "")
}

} // verus!
