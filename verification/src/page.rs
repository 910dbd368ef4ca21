//! What a page is rendered from: the name of its template, its content,
//! its navigation bar and the messages shown on it.

use vstd::prelude::*;
use crate::messages::MessageLevel;
use crate::messages::PageMessage;
use crate::messages::PageMessageView;
use crate::messages::PageMessages;
use crate::messages::level_text;
use crate::messages::message_views;
use crate::navbar::NavbarTemplateData;
use crate::navbar::navbar_for;

verus! {

/// The messages of a page, where it has any to show.
pub open spec fn shown(messages: Option<PageMessages>) -> Option<Seq<PageMessageView>> {
    match messages {
        Some(messages) => Some(messages@),
        None => None,
    }
}

/// The messages of a page after one more is added.
pub open spec fn with_message(
    messages: Option<PageMessages>,
    level: MessageLevel,
    text: Seq<char>,
) -> Seq<PageMessageView> {
    let message = PageMessageView { level: level_text(level), text };
    match messages {
        Some(messages) => messages@.push(message),
        None => seq![message],
    }
}

/// Adds a message to the messages of a page, starting the list when the
/// page has none yet.
fn push_message(messages: &mut Option<PageMessages>, level: MessageLevel, text: &str)
    ensures
        shown(*final(messages)) == Some(with_message(*old(messages), level, text@)),
{
    let mut list: Option<PageMessages> = None;
    core::mem::swap(messages, &mut list);
    let mut list = match list {
        Some(list) => list,
        None => PageMessages::new(),
    };
    list.add(PageMessage::new(level, text));
    *messages = Some(list);
}

/// Everything a page is rendered from.
pub struct PageTemplate<T> {
    pub navbar: NavbarTemplateData,
    pub content: Option<T>,
    pub messages: Option<PageMessages>,
    pub template_name: String,
}

impl<T> PageTemplate<T> {
    /// A page with content and no messages.
    pub fn new(content_template: &str, is_signed_in: bool, content: T) -> (page: PageTemplate<T>)
        ensures
            page.navbar == navbar_for(is_signed_in),
            page.content == Some(content),
            page.messages is None,
            page.template_name@ == content_template@,
    {
        PageTemplate {
            navbar: NavbarTemplateData::new(is_signed_in),
            content: Some(content),
            messages: None,
            template_name: content_template.to_string(),
        }
    }

    /// A page with content that shows the given messages in their order.
    pub fn new_with_messages(
        content_template: &str,
        is_signed_in: bool,
        content: T,
        messages: Vec<PageMessage>,
    ) -> (page: PageTemplate<T>)
        ensures
            page.navbar == navbar_for(is_signed_in),
            page.content == Some(content),
            shown(page.messages) == Some(message_views(messages@)),
            page.template_name@ == content_template@,
    {
        let list = PageMessages::from_messages(messages);
        PageTemplate {
            navbar: NavbarTemplateData::new(is_signed_in),
            content: Some(content),
            messages: Some(list),
            template_name: content_template.to_string(),
        }
    }

    /// Starts a page for the template of this name.
    pub fn builder(template_name: &str) -> (builder: PageTemplateBuilder<T>)
        ensures
            builder.template_name@ == template_name@,
            builder.content is None,
            builder.navbar is None,
            builder.messages is None,
    {
        PageTemplateBuilder::new(template_name)
    }
}

/// A page in the making.
pub struct PageTemplateBuilder<T> {
    pub template_name: String,
    pub content: Option<T>,
    pub navbar: Option<NavbarTemplateData>,
    pub messages: Option<PageMessages>,
}

impl<T> PageTemplateBuilder<T> {
    /// A page for the template of this name, with nothing set yet.
    pub fn new(template_name: &str) -> (builder: PageTemplateBuilder<T>)
        ensures
            builder.template_name@ == template_name@,
            builder.content is None,
            builder.navbar is None,
            builder.messages is None,
    {
        PageTemplateBuilder {
            template_name: template_name.to_string(),
            content: None,
            navbar: None,
            messages: None,
        }
    }

    /// Sets the content, or clears it.
    pub fn maybe_content(self, content: Option<T>) -> (builder: PageTemplateBuilder<T>)
        ensures
            builder == (PageTemplateBuilder { content, ..self }),
    {
        let mut builder = self;
        builder.content = content;
        builder
    }

    /// Sets the content.
    pub fn content(self, content: T) -> (builder: PageTemplateBuilder<T>)
        ensures
            builder == (PageTemplateBuilder { content: Some(content), ..self }),
    {
        self.maybe_content(Some(content))
    }

    /// Sets the navigation bar to the one for this visitor.
    pub fn navbar(self, is_signed_in: bool) -> (builder: PageTemplateBuilder<T>)
        ensures
            builder == (PageTemplateBuilder {
                navbar: Some(navbar_for(is_signed_in)),
                ..self
            }),
    {
        let mut builder = self;
        builder.navbar = Some(NavbarTemplateData::new(is_signed_in));
        builder
    }

    /// Sets the messages, or clears them.
    pub fn maybe_messages(self, messages: Option<PageMessages>) -> (builder: PageTemplateBuilder<
        T,
    >)
        ensures
            builder == (PageTemplateBuilder { messages, ..self }),
    {
        let mut builder = self;
        builder.messages = messages;
        builder
    }

    /// The finished page. A page whose navigation bar was not set gets the
    /// one of a visitor who is not signed in.
    pub fn build(self) -> (page: PageTemplate<T>)
        ensures
            page == (PageTemplate {
                navbar: match self.navbar {
                    Some(navbar) => navbar,
                    None => navbar_for(false),
                },
                content: self.content,
                messages: self.messages,
                template_name: self.template_name,
            }),
    {
        PageTemplate {
            navbar: match self.navbar {
                Some(navbar) => navbar,
                None => NavbarTemplateData::default(),
            },
            content: self.content,
            messages: self.messages,
            template_name: self.template_name,
        }
    }
}

/// What a handler answers with before the layout is put around it: the
/// name of the partial template, its content and its messages.
pub struct TemplateResponse<T> {
    pub partial_name: String,
    pub content: Option<T>,
    pub messages: Option<PageMessages>,
}

impl<T> TemplateResponse<T> {
    /// An answer for the partial template of this name, without content
    /// and without messages.
    pub fn new(partial_name: &str) -> (response: TemplateResponse<T>)
        ensures
            response.partial_name@ == partial_name@,
            response.content is None,
            response.messages is None,
    {
        TemplateResponse { partial_name: partial_name.to_string(), content: None, messages: None }
    }

    /// Sets the content.
    pub fn content(self, content: T) -> (response: TemplateResponse<T>)
        ensures
            response == (TemplateResponse { content: Some(content), ..self }),
    {
        let mut response = self;
        response.content = Some(content);
        response
    }

    /// Adds a message at the success level.
    pub fn add_success_message(self, message: &str) -> (response: TemplateResponse<T>)
        ensures
            response.partial_name == self.partial_name,
            response.content == self.content,
            shown(response.messages) == Some(
                with_message(self.messages, MessageLevel::Success, message@),
            ),
    {
        let mut response = self;
        push_message(&mut response.messages, MessageLevel::Success, message);
        response
    }

    /// Adds a message at the error level.
    pub fn add_error_message(self, message: &str) -> (response: TemplateResponse<T>)
        ensures
            response.partial_name == self.partial_name,
            response.content == self.content,
            shown(response.messages) == Some(
                with_message(self.messages, MessageLevel::Error, message@),
            ),
    {
        let mut response = self;
        push_message(&mut response.messages, MessageLevel::Error, message);
        response
    }

    /// Puts the layout around the answer: the page of the partial
    /// template, with the navigation bar for this visitor.
    pub fn into_page(self, is_signed_in: bool) -> (page: PageTemplate<T>)
        ensures
            page == (PageTemplate {
                navbar: navbar_for(is_signed_in),
                content: self.content,
                messages: self.messages,
                template_name: self.partial_name,
            }),
    {
        let builder: PageTemplateBuilder<T> = PageTemplateBuilder {
            template_name: self.partial_name,
            content: None,
            navbar: None,
            messages: None,
        };
        builder.maybe_content(self.content).navbar(is_signed_in).maybe_messages(
            self.messages,
        ).build()
    }
}

/// The layout of one request: whether the visitor is signed in, and the
/// messages gathered while the request is handled.
pub struct LayoutMiddleware {
    pub is_signed_in: bool,
    pub messages: Option<PageMessages>,
}

impl LayoutMiddleware {
    /// The layout at the start of a request: no messages yet.
    pub fn new(is_signed_in: bool) -> (layout: LayoutMiddleware)
        ensures
            layout.is_signed_in == is_signed_in,
            layout.messages is None,
    {
        LayoutMiddleware { is_signed_in, messages: None }
    }

    /// Adds a message at the error level.
    pub fn add_error_message(&mut self, text: &str)
        ensures
            final(self).is_signed_in == old(self).is_signed_in,
            shown(final(self).messages) == Some(
                with_message(old(self).messages, MessageLevel::Error, text@),
            ),
    {
        push_message(&mut self.messages, MessageLevel::Error, text);
    }

    /// Adds a message at the success level.
    pub fn add_success_message(&mut self, text: &str)
        ensures
            final(self).is_signed_in == old(self).is_signed_in,
            shown(final(self).messages) == Some(
                with_message(old(self).messages, MessageLevel::Success, text@),
            ),
    {
        push_message(&mut self.messages, MessageLevel::Success, text);
    }

    /// The page of a template with this content, the navigation bar for
    /// the visitor, and the messages gathered so far.
    pub fn render<T>(&self, template_name: &str, content: T) -> (page: PageTemplate<T>)
        ensures
            page.navbar == navbar_for(self.is_signed_in),
            page.content == Some(content),
            shown(page.messages) == shown(self.messages),
            page.template_name@ == template_name@,
    {
        let messages = match &self.messages {
            Some(messages) => Some(messages.clone()),
            None => None,
        };
        PageTemplate::builder(template_name).content(content).navbar(
            self.is_signed_in,
        ).maybe_messages(messages).build()
    }
}

} // verus!
