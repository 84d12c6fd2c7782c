//! Meeting templates: named presets for the title, the audio source and the
//! summary prompt. The host keeps the list in its settings; these functions
//! validate and apply each change to it.
use vstd::prelude::*;
use crate::platform::is_uuid_v4;
use crate::status::source_of_name;
use crate::text::{has_placeholder, is_blank, trimmed};

verus! {

/// Longest template name, in bytes.
pub const TEMPLATE_NAME_MAX_BYTES: usize = 50;
/// Longest summary prompt template, in bytes.
pub const SUMMARY_PROMPT_MAX_BYTES: usize = 10000;

#[derive(Debug)]
pub struct MeetingTemplate {
    pub id: String,
    pub name: String,
    pub icon: String,
    pub title_template: String,
    /// Stored spelling of an audio source.
    pub audio_source: String,
    pub prompt_id: Option<String>,
    /// A prompt with a `{}` where the transcript goes.
    pub summary_prompt_template: Option<String>,
    pub created_at: i64,
    pub updated_at: i64,
}

/// Why a template change was refused.
#[derive(Debug)]
pub enum TemplateError {
    EmptyName,
    NameTooLong,
    InvalidAudioSource(String),
    MissingPlaceholder,
    PromptTooLong,
    DuplicateName(String),
    NotFound(String),
    DefaultTemplate,
}

pub open spec fn template_error_text(e: TemplateError) -> Seq<char> {
    match e {
        TemplateError::EmptyName => "Template name cannot be empty"@,
        TemplateError::NameTooLong => "Template name must be 50 characters or less"@,
        TemplateError::InvalidAudioSource(s) => "Invalid audio_source: "@ + s@,
        TemplateError::MissingPlaceholder =>
            "summary_prompt_template must contain '{}' placeholder for transcript"@,
        TemplateError::PromptTooLong =>
            "summary_prompt_template is too long (max 10000 characters)"@,
        TemplateError::DuplicateName(n) => "Template with name '"@ + n@ + "' already exists"@,
        TemplateError::NotFound(id) => "Template with id '"@ + id@ + "' not found"@,
        TemplateError::DefaultTemplate => "Cannot delete default templates"@,
    }
}

fn quoted(a: &str, b: &str, c: &str) -> (r: String)
    ensures
        r@ == a@ + b@ + c@,
{
    let mut s = a.to_owned();
    s.append(b);
    s.append(c);
    s
}

impl TemplateError {
    pub fn message(&self) -> (r: String)
        ensures
            r@ == template_error_text(*self),
    {
        match self {
            TemplateError::EmptyName => String::from_str("Template name cannot be empty"),
            TemplateError::NameTooLong => String::from_str(
                "Template name must be 50 characters or less",
            ),
            TemplateError::InvalidAudioSource(s) => {
                let mut m = String::from_str("Invalid audio_source: ");
                m.append(s.as_str());
                m
            },
            TemplateError::MissingPlaceholder => String::from_str(
                "summary_prompt_template must contain '{}' placeholder for transcript",
            ),
            TemplateError::PromptTooLong => String::from_str(
                "summary_prompt_template is too long (max 10000 characters)",
            ),
            TemplateError::DuplicateName(n) => quoted(
                "Template with name '",
                n.as_str(),
                "' already exists",
            ),
            TemplateError::NotFound(id) => quoted("Template with id '", id.as_str(), "' not found"),
            TemplateError::DefaultTemplate => String::from_str("Cannot delete default templates"),
        }
    }
}

/// Byte length of the UTF-8 encoding.
pub open spec fn byte_len(s: Seq<char>) -> nat {
    vstd::utf8::encode_utf8(s).len()
}

pub open spec fn valid_source_name(s: Seq<char>) -> bool {
    source_of_name(s) is Some
}

/// A prompt template with a placeholder, within the size bound.
pub open spec fn prompt_ok(p: Seq<char>) -> bool {
    has_placeholder(p) && byte_len(p) <= SUMMARY_PROMPT_MAX_BYTES
}

pub open spec fn name_taken(ts: Seq<MeetingTemplate>, name: Seq<char>) -> bool {
    exists|i: int| 0 <= i < ts.len() && #[trigger] ts[i].name@ == name
}

fn check_name(name: &str) -> (r: Result<(), TemplateError>)
    ensures
        is_blank(name@) ==> (r matches Err(TemplateError::EmptyName)),
        !is_blank(name@) && byte_len(name@) > TEMPLATE_NAME_MAX_BYTES ==> (r matches Err(
            TemplateError::NameTooLong,
        )),
        r is Ok <==> !is_blank(name@) && byte_len(name@) <= TEMPLATE_NAME_MAX_BYTES,
{
    if crate::text::is_blank_str(name) {
        return Err(TemplateError::EmptyName);
    }
    if name.as_bytes().len() > TEMPLATE_NAME_MAX_BYTES {
        return Err(TemplateError::NameTooLong);
    }
    Ok(())
}

fn check_source(source: &str) -> (r: Result<(), TemplateError>)
    ensures
        r is Ok <==> valid_source_name(source@),
        r is Err ==> (r matches Err(TemplateError::InvalidAudioSource(x)) && x@ == source@),
{
    if crate::status::AudioSource::from_name(source).is_none() {
        return Err(TemplateError::InvalidAudioSource(source.to_owned()));
    }
    Ok(())
}

/// Adds a template after validating it: the name must be non-blank, at most 50
/// bytes, and unused once trimmed; the audio source must be a stored spelling;
/// a summary prompt must hold `{}` and be at most 10000 bytes. It is stored
/// with its trimmed name, the id `id` and both times `now`.
pub fn add_template(
    templates: &mut Vec<MeetingTemplate>,
    id: String,
    now: i64,
    name: String,
    icon: String,
    title_template: String,
    audio_source: String,
    prompt_id: Option<String>,
    summary_prompt_template: Option<String>,
) -> (r: Result<MeetingTemplate, TemplateError>)
    ensures
        is_blank(name@) ==> (r matches Err(TemplateError::EmptyName)),
        !is_blank(name@) && byte_len(name@) > TEMPLATE_NAME_MAX_BYTES ==> (r matches Err(
            TemplateError::NameTooLong,
        )),
        r is Ok <==> {
            &&& !is_blank(name@)
            &&& byte_len(name@) <= TEMPLATE_NAME_MAX_BYTES
            &&& valid_source_name(audio_source@)
            &&& (summary_prompt_template matches Some(p) ==> prompt_ok(p@))
            &&& !name_taken(old(templates)@, trimmed(name@))
        },
        match r {
            Ok(t) => {
                &&& t.id == id
                &&& t.name@ == trimmed(name@)
                &&& t.icon == icon
                &&& t.title_template == title_template
                &&& t.audio_source == audio_source
                &&& t.prompt_id == prompt_id
                &&& t.summary_prompt_template == summary_prompt_template
                &&& t.created_at == now
                &&& t.updated_at == now
                &&& final(templates)@.len() == old(templates)@.len() + 1
                &&& final(templates)@.take(old(templates)@.len() as int) == old(templates)@
                &&& final(templates)@.last() == t
            },
            Err(_) => final(templates)@ == old(templates)@,
        },
{
    check_name(name.as_str())?;
    check_source(audio_source.as_str())?;
    match &summary_prompt_template {
        Some(p) => {
            if !crate::text::contains_placeholder(p.as_str()) {
                return Err(TemplateError::MissingPlaceholder);
            }
            if p.as_str().as_bytes().len() > SUMMARY_PROMPT_MAX_BYTES {
                return Err(TemplateError::PromptTooLong);
            }
        },
        None => {},
    }
    let clean = crate::text::trim(name.as_str());
    let mut i: usize = 0;
    while i < templates.len()
        invariant
            i <= templates@.len(),
            clean@ == trimmed(name@),
            !is_blank(name@),
            byte_len(name@) <= TEMPLATE_NAME_MAX_BYTES,
            valid_source_name(audio_source@),
            summary_prompt_template matches Some(p) ==> prompt_ok(p@),
            forall|k: int| 0 <= k < i ==> (#[trigger] templates@[k]).name@ != clean@,
        decreases templates@.len() - i,
    {
        if templates[i].name == clean {
            return Err(TemplateError::DuplicateName(clean));
        }
        i = i + 1;
    }
    let t = MeetingTemplate {
        id,
        name: clean,
        icon,
        title_template,
        audio_source,
        prompt_id,
        summary_prompt_template,
        created_at: now,
        updated_at: now,
    };
    let copy = t.copy();
    templates.push(copy);
    assert(templates@.take(templates@.len() - 1) =~= old(templates)@);
    Ok(t)
}

impl MeetingTemplate {
    /// A field-by-field copy.
    pub fn copy(&self) -> (r: Self)
        ensures
            r == *self,
    {
        MeetingTemplate {
            id: self.id.clone(),
            name: self.name.clone(),
            icon: self.icon.clone(),
            title_template: self.title_template.clone(),
            audio_source: self.audio_source.clone(),
            prompt_id: crate::session::copy_opt_string(&self.prompt_id),
            summary_prompt_template: crate::session::copy_opt_string(&self.summary_prompt_template),
            created_at: self.created_at,
            updated_at: self.updated_at,
        }
    }
}

/// Creates a template with a fresh version-4 id, stamped with the time now;
/// refused as `add_template` refuses.
pub fn create_meeting_template(
    templates: &mut Vec<MeetingTemplate>,
    name: String,
    icon: String,
    title_template: String,
    audio_source: String,
    prompt_id: Option<String>,
    summary_prompt_template: Option<String>,
) -> (r: Result<MeetingTemplate, TemplateError>)
    ensures
        is_blank(name@) ==> (r matches Err(TemplateError::EmptyName)),
        r is Ok <==> {
            &&& !is_blank(name@)
            &&& byte_len(name@) <= TEMPLATE_NAME_MAX_BYTES
            &&& valid_source_name(audio_source@)
            &&& (summary_prompt_template matches Some(p) ==> prompt_ok(p@))
            &&& !name_taken(old(templates)@, trimmed(name@))
        },
        match r {
            Ok(t) => {
                &&& is_uuid_v4(t.id@)
                &&& t.name@ == trimmed(name@)
                &&& t.created_at == t.updated_at
                &&& final(templates)@ == old(templates)@.push(t)
            },
            Err(_) => final(templates)@ == old(templates)@,
        },
{
    let id = crate::platform::new_uuid_v4();
    let now = crate::platform::unix_now();
    let r = add_template(templates, id, now, name, icon, title_template, audio_source, prompt_id, summary_prompt_template);
    proof {
        if r is Ok {
            assert(templates@ =~= old(templates)@.push(r->Ok_0));
        }
    }
    r
}

/// `i` is the first position of a template with this id.
pub open spec fn first_with_id(ts: Seq<MeetingTemplate>, id: Seq<char>, i: int) -> bool {
    0 <= i < ts.len() && ts[i].id@ == id && forall|j: int| 0 <= j < i ==> #[trigger] ts[j].id@ != id
}

pub open spec fn has_template(ts: Seq<MeetingTemplate>, id: Seq<char>) -> bool {
    exists|i: int| 0 <= i < ts.len() && #[trigger] ts[i].id@ == id
}

/// The optional changes are acceptable: a new name is non-blank and at most 50
/// bytes, a new audio source is a stored spelling, and a new summary prompt is
/// empty or holds `{}`, within 10000 bytes.
pub open spec fn changes_ok(
    name: Option<String>,
    audio_source: Option<String>,
    summary_prompt_template: Option<String>,
) -> bool {
    &&& match name {
        Some(n) => !is_blank(n@) && byte_len(n@) <= TEMPLATE_NAME_MAX_BYTES,
        None => true,
    }
    &&& match audio_source {
        Some(a) => valid_source_name(a@),
        None => true,
    }
    &&& match summary_prompt_template {
        Some(p) => (p@.len() == 0 || has_placeholder(p@)) && byte_len(p@) <= SUMMARY_PROMPT_MAX_BYTES,
        None => true,
    }
}

pub open spec fn or_keep<T>(new: Option<T>, old: T) -> T {
    match new {
        Some(x) => x,
        None => old,
    }
}

/// `t` is `o` with the given changes applied at time `now`: each field given is
/// replaced, the name by its trimmed text.
pub open spec fn applied(
    o: MeetingTemplate,
    t: MeetingTemplate,
    now: i64,
    name: Option<String>,
    icon: Option<String>,
    title_template: Option<String>,
    audio_source: Option<String>,
    prompt_id: Option<String>,
    summary_prompt_template: Option<String>,
) -> bool {
    &&& t.id == o.id
    &&& match name {
        Some(n) => t.name@ == trimmed(n@),
        None => t.name == o.name,
    }
    &&& t.icon == or_keep(icon, o.icon)
    &&& t.title_template == or_keep(title_template, o.title_template)
    &&& t.audio_source == or_keep(audio_source, o.audio_source)
    &&& t.prompt_id == (if prompt_id is Some { prompt_id } else { o.prompt_id })
    &&& t.summary_prompt_template == (if summary_prompt_template is Some {
        summary_prompt_template
    } else {
        o.summary_prompt_template
    })
    &&& t.created_at == o.created_at
    &&& t.updated_at == now
}

fn keep_or(new: Option<String>, old: &String) -> (r: String)
    ensures
        r == or_keep(new, *old),
{
    match new {
        Some(x) => x,
        None => old.clone(),
    }
}

/// Applies optional changes to the first template with this id, stamping it
/// with `now`. Nothing changes when it is missing or a change is refused.
pub fn apply_template_update(
    templates: &mut Vec<MeetingTemplate>,
    id: &str,
    now: i64,
    name: Option<String>,
    icon: Option<String>,
    title_template: Option<String>,
    audio_source: Option<String>,
    prompt_id: Option<String>,
    summary_prompt_template: Option<String>,
) -> (r: Result<MeetingTemplate, TemplateError>)
    ensures
        !has_template(old(templates)@, id@) ==> (r matches Err(TemplateError::NotFound(x)) && x@
            == id@),
        r is Ok <==> has_template(old(templates)@, id@) && changes_ok(
            name,
            audio_source,
            summary_prompt_template,
        ),
        match r {
            Ok(t) => exists|i: int|
                first_with_id(old(templates)@, id@, i) && applied(
                    old(templates)@[i],
                    t,
                    now,
                    name,
                    icon,
                    title_template,
                    audio_source,
                    prompt_id,
                    summary_prompt_template,
                ) && final(templates)@ == old(templates)@.update(i, t),
            Err(_) => final(templates)@ == old(templates)@,
        },
{
    let mut i: usize = 0;
    while i < templates.len() && !crate::text::str_equal(templates[i].id.as_str(), id)
        invariant
            i <= templates@.len(),
            forall|j: int| 0 <= j < i ==> #[trigger] templates@[j].id@ != id@,
        decreases templates@.len() - i,
    {
        i = i + 1;
    }
    if i == templates.len() {
        return Err(TemplateError::NotFound(id.to_owned()));
    }
    let ghost at = i as int;
    assert(first_with_id(templates@, id@, at));
    let new_name = match &name {
        Some(n) => {
            check_name(n.as_str())?;
            crate::text::trim(n.as_str())
        },
        None => templates[i].name.clone(),
    };
    match &audio_source {
        Some(a) => check_source(a.as_str())?,
        None => {},
    }
    match &summary_prompt_template {
        Some(p) => {
            if p.as_str().unicode_len() != 0 && !crate::text::contains_placeholder(p.as_str()) {
                return Err(TemplateError::MissingPlaceholder);
            }
            if p.as_str().as_bytes().len() > SUMMARY_PROMPT_MAX_BYTES {
                return Err(TemplateError::PromptTooLong);
            }
        },
        None => {},
    }
    let o = templates[i].copy();
    let t = MeetingTemplate {
        id: o.id.clone(),
        name: new_name,
        icon: keep_or(icon, &o.icon),
        title_template: keep_or(title_template, &o.title_template),
        audio_source: keep_or(audio_source, &o.audio_source),
        prompt_id: if prompt_id.is_some() { prompt_id } else { crate::session::copy_opt_string(&o.prompt_id) },
        summary_prompt_template: if summary_prompt_template.is_some() {
            summary_prompt_template
        } else {
            crate::session::copy_opt_string(&o.summary_prompt_template)
        },
        created_at: o.created_at,
        updated_at: now,
    };
    templates.set(i, t.copy());
    Ok(t)
}

/// Updates a template, stamped with the time now; refused as
/// `apply_template_update` refuses.
pub fn update_meeting_template(
    templates: &mut Vec<MeetingTemplate>,
    id: &str,
    name: Option<String>,
    icon: Option<String>,
    title_template: Option<String>,
    audio_source: Option<String>,
    prompt_id: Option<String>,
    summary_prompt_template: Option<String>,
) -> (r: Result<MeetingTemplate, TemplateError>)
    ensures
        r is Ok <==> has_template(old(templates)@, id@) && changes_ok(
            name,
            audio_source,
            summary_prompt_template,
        ),
        match r {
            Ok(t) => exists|i: int, now: i64|
                first_with_id(old(templates)@, id@, i) && applied(
                    old(templates)@[i],
                    t,
                    now,
                    name,
                    icon,
                    title_template,
                    audio_source,
                    prompt_id,
                    summary_prompt_template,
                ) && final(templates)@ == old(templates)@.update(i, t),
            Err(_) => final(templates)@ == old(templates)@,
        },
{
    let now = crate::platform::unix_now();
    apply_template_update(templates, id, now, name, icon, title_template, audio_source, prompt_id, summary_prompt_template)
}

/// Removes every template with this id. Built-in templates, whose ids begin
/// with `template_`, cannot be removed.
pub fn delete_meeting_template(templates: &mut Vec<MeetingTemplate>, id: &str) -> (r: Result<
    (),
    TemplateError,
>)
    ensures
        ({
            let builtin = "template_"@.len() <= id@.len() && id@.subrange(0, "template_"@.len() as int) == "template_"@;
            &&& builtin ==> (r matches Err(TemplateError::DefaultTemplate))
                && final(templates)@ == old(templates)@
            &&& !builtin && !has_template(old(templates)@, id@) ==> (r matches Err(
                TemplateError::NotFound(x),
            ) && x@ == id@) && final(templates)@ == old(templates)@
            &&& !builtin && has_template(old(templates)@, id@) ==> r is Ok && final(templates)@
                == old(templates)@.filter(|t: MeetingTemplate| t.id@ != id@)
        }),
{
    if crate::text::starts_with(id, "template_") {
        return Err(TemplateError::DefaultTemplate);
    }
    let ghost pred = |t: MeetingTemplate| t.id@ != id@;
    let ghost initial = templates@;
    let mut kept: Vec<MeetingTemplate> = Vec::new();
    let mut found = false;
    let mut i: usize = 0;
    assert(initial.take(0) =~= Seq::<MeetingTemplate>::empty());
    assert(initial.take(0).filter(pred) =~= Seq::<MeetingTemplate>::empty()) by {
        reveal(Seq::filter);
    }
    while i < templates.len()
        invariant
            templates@ == initial,
            pred == (|t: MeetingTemplate| t.id@ != id@),
            i <= initial.len(),
            kept@ == initial.take(i as int).filter(pred),
            found <==> exists|j: int| 0 <= j < i && #[trigger] initial[j].id@ == id@,
        decreases initial.len() - i,
    {
        let t = templates[i].copy();
        let same = crate::text::str_equal(t.id.as_str(), id);
        assert(initial.take(i + 1) =~= initial.take(i as int).push(initial[i as int]));
        assert(pred(initial[i as int]) == !same);
        proof {
            initial.take(i as int).lemma_filter_push(initial[i as int], pred);
        }
        if same {
            found = true;
        } else {
            kept.push(t);
        }
        i = i + 1;
    }
    assert(initial.take(initial.len() as int) =~= initial);
    if !found {
        return Err(TemplateError::NotFound(id.to_owned()));
    }
    *templates = kept;
    Ok(())
}

} // verus!
