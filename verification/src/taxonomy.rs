//! Categories and tags: their records and the checks on requests that change them.
use vstd::prelude::*;

use crate::home::{count_u32, to_count};
use crate::text::{
    char_count, char_is_ascii_hex, chars_of, concat_str, is_ascii_hex, outcome, owned, trim,
    trim_bounds,
};

verus! {

/// A category as listed to readers and administrators.
#[derive(Clone, Debug, PartialEq, Eq)]
pub struct CategoryItem {
    pub category_id: u128,
    pub name: String,
    pub color: String,
    pub sort_order: i32,
    pub enabled: bool,
    pub post_count: u32,
}

/// A tag as listed to readers and administrators.
#[derive(Clone, Debug, PartialEq, Eq)]
pub struct TagItem {
    pub tag_id: u128,
    pub name: String,
    pub sort_order: i32,
    pub enabled: bool,
    pub use_count: u32,
}

/// A stored category with the number of its published posts.
#[derive(Clone, Debug, PartialEq, Eq)]
pub struct CategoryRow {
    pub category_id: u128,
    pub name: String,
    pub color: String,
    pub sort_order: i32,
    pub enabled: bool,
    pub post_count: i64,
}

impl CategoryItem {
    /// The listed category of a stored row; a negative count reads as zero.
    pub fn from_row(row: CategoryRow) -> (r: CategoryItem)
        ensures
            r.category_id == row.category_id,
            r.name == row.name,
            r.color == row.color,
            r.sort_order == row.sort_order,
            r.enabled == row.enabled,
            r.post_count == count_u32(row.post_count),
    {
        CategoryItem {
            category_id: row.category_id,
            name: row.name,
            color: row.color,
            sort_order: row.sort_order,
            enabled: row.enabled,
            post_count: to_count(row.post_count),
        }
    }
}

/// A stored tag with its use count.
#[derive(Clone, Debug, PartialEq, Eq)]
pub struct TagRow {
    pub tag_id: u128,
    pub name: String,
    pub sort_order: i32,
    pub enabled: bool,
    pub use_count: i64,
}

impl TagItem {
    /// The listed tag of a stored row; a negative count reads as zero.
    pub fn from_row(row: TagRow) -> (r: TagItem)
        ensures
            r.tag_id == row.tag_id,
            r.name == row.name,
            r.sort_order == row.sort_order,
            r.enabled == row.enabled,
            r.use_count == count_u32(row.use_count),
    {
        TagItem {
            tag_id: row.tag_id,
            name: row.name,
            sort_order: row.sort_order,
            enabled: row.enabled,
            use_count: to_count(row.use_count),
        }
    }
}

/// The longest name, in characters, that a category or a tag may have.
pub const MAX_NAME_CHARS: usize = 32;

/// The message for a name that fails its check, or `None` when it passes: the trimmed
/// name must be non-empty and at most 32 characters long.
pub open spec fn name_error(value: Seq<char>, label: Seq<char>) -> Option<Seq<char>> {
    let t = trim(value);
    if t.len() == 0 {
        Some(label + "不能为空"@)
    } else if t.len() > 32 {
        Some(label + "不能超过 32 个字符"@)
    } else {
        None
    }
}

/// Whether a color is written `#RRGGBB`: once trimmed, a `#` followed by six ASCII
/// hexadecimal digits.
pub open spec fn is_hex_color(value: Seq<char>) -> bool {
    let t = trim(value);
    &&& t.len() == 7
    &&& t[0] == '#'
    &&& forall|i: int| 1 <= i < 7 ==> is_ascii_hex(#[trigger] t[i])
}

/// The message for a color that fails its check, or `None` when it passes.
pub open spec fn color_error(value: Seq<char>) -> Option<Seq<char>> {
    if is_hex_color(value) {
        None
    } else {
        Some("分类颜色必须是 #RRGGBB"@)
    }
}

/// The first message among two checks.
pub open spec fn first_error(a: Option<Seq<char>>, b: Option<Seq<char>>) -> Option<Seq<char>> {
    if a is Some {
        a
    } else {
        b
    }
}

/// The check of an optional name: it passes when no name is given.
pub open spec fn opt_name_error(o: Option<String>, label: Seq<char>) -> Option<Seq<char>> {
    match o {
        Some(n) => name_error(n@, label),
        None => None,
    }
}

/// The check of an optional color: it passes when no color is given.
pub open spec fn opt_color_error(o: Option<String>) -> Option<Seq<char>> {
    match o {
        Some(c) => color_error(c@),
        None => None,
    }
}

fn validate_name(value: &str, label: &str) -> (r: Result<(), String>)
    ensures
        outcome(r) == name_error(value@, label@),
{
    let v = chars_of(value);
    let (a, b) = trim_bounds(&v);
    if a == b {
        return Err(concat_str(label, "不能为空"));
    }
    if b - a > MAX_NAME_CHARS {
        return Err(concat_str(label, "不能超过 32 个字符"));
    }
    Ok(())
}

fn validate_color(value: &str) -> (r: Result<(), String>)
    ensures
        outcome(r) == color_error(value@),
{
    let v = chars_of(value);
    let (a, b) = trim_bounds(&v);
    let ghost t = trim(value@);
    assert(t == v@.subrange(a as int, b as int));
    let mut ok = b - a == 7 && v[a] == '#';
    if ok {
        let mut i: usize = a + 1;
        while i < b
            invariant
                a + 1 <= i <= b,
                b - a == 7,
                b <= v@.len(),
                t == v@.subrange(a as int, b as int),
                ok == (forall|k: int| 1 <= k < i - a ==> is_ascii_hex(#[trigger] t[k])),
            decreases b - i,
        {
            let c = v[i];
            assert(c == t[i - a]);
            if !char_is_ascii_hex(c) {
                ok = false;
            }
            i = i + 1;
        }
    }
    if ok {
        Ok(())
    } else {
        Err(owned("分类颜色必须是 #RRGGBB"))
    }
}

/// A request to create a category.
#[derive(Clone, Debug, PartialEq, Eq)]
pub struct CreateCategoryRequest {
    pub name: String,
    pub color: String,
    pub sort_order: i32,
}

impl CreateCategoryRequest {
    /// Checks the name (labelled `分类名称`), then the color.
    pub fn validate(&self) -> (r: Result<(), String>)
        ensures
            outcome(r) == first_error(
                name_error(self.name@, "分类名称"@),
                color_error(self.color@),
            ),
    {
        validate_name(self.name.as_str(), "分类名称")?;
        validate_color(self.color.as_str())?;
        Ok(())
    }
}

/// A request to change a category; absent fields stay as they are.
#[derive(Clone, Debug, PartialEq, Eq)]
pub struct UpdateCategoryRequest {
    pub name: Option<String>,
    pub color: Option<String>,
    pub sort_order: Option<i32>,
    pub enabled: Option<bool>,
}

impl UpdateCategoryRequest {
    /// Checks the name and then the color, each where it is given.
    pub fn validate(&self) -> (r: Result<(), String>)
        ensures
            outcome(r) == first_error(
                opt_name_error(self.name, "分类名称"@),
                opt_color_error(self.color),
            ),
    {
        if let Some(name) = &self.name {
            validate_name(name.as_str(), "分类名称")?;
        }
        if let Some(color) = &self.color {
            validate_color(color.as_str())?;
        }
        Ok(())
    }
}

/// A request to create a tag.
#[derive(Clone, Debug, PartialEq, Eq)]
pub struct CreateTagRequest {
    pub name: String,
    pub sort_order: i32,
}

impl CreateTagRequest {
    /// Checks the name, labelled `标签名称`.
    pub fn validate(&self) -> (r: Result<(), String>)
        ensures
            outcome(r) == name_error(self.name@, "标签名称"@),
    {
        validate_name(self.name.as_str(), "标签名称")
    }
}

/// A request to change a tag; absent fields stay as they are.
#[derive(Clone, Debug, PartialEq, Eq)]
pub struct UpdateTagRequest {
    pub name: Option<String>,
    pub sort_order: Option<i32>,
    pub enabled: Option<bool>,
    pub use_count: Option<u32>,
}

impl UpdateTagRequest {
    /// Checks the name where it is given.
    pub fn validate(&self) -> (r: Result<(), String>)
        ensures
            outcome(r) == opt_name_error(self.name, "标签名称"@),
    {
        if let Some(name) = &self.name {
            validate_name(name.as_str(), "标签名称")?;
        }
        Ok(())
    }
}

/// A request to merge a tag into another one.
#[derive(Clone, Debug, PartialEq, Eq)]
pub struct MergeTagRequest {
    pub target_tag_id: u128,
}

/// The query that lists every category.
pub const LIST_CATEGORIES_SQL: &'static str = r#"
select
    c.category_id,
    c.name,
    c.color,
    c.sort_order,
    c.enabled,
    count(p.post_id) as post_count
from categories c
left join posts p on p.category_id = c.category_id and p.status = 'published'
group by c.category_id, c.name, c.color, c.sort_order, c.enabled
order by c.sort_order asc, c.name asc
"#;

/// The query that lists every tag.
pub const LIST_TAGS_SQL: &'static str = r#"
select
    t.tag_id,
    t.name,
    t.sort_order,
    t.enabled,
    greatest(t.use_count, count(p.post_id)) as use_count
from tags t
left join post_tags pt on pt.tag_id = t.tag_id
left join posts p on p.post_id = pt.post_id and p.status = 'published'
group by t.tag_id, t.name, t.sort_order, t.enabled, t.use_count
order by greatest(t.use_count, count(p.post_id)) desc, t.sort_order asc, t.name asc
"#;

/// Reading categories and tags from storage.
pub struct PostgresTaxonomyRepository;

impl PostgresTaxonomyRepository {
    /// The query that lists every category.
    pub fn list_categories_sql() -> (r: &'static str)
        ensures
            r@ == LIST_CATEGORIES_SQL@,
    {
        LIST_CATEGORIES_SQL
    }

    /// The query that lists every tag.
    pub fn list_tags_sql() -> (r: &'static str)
        ensures
            r@ == LIST_TAGS_SQL@,
    {
        LIST_TAGS_SQL
    }
}

} // verus!
