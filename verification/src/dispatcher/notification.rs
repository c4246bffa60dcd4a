//! A notification and its life: composed, posted, then cleaned.

use vstd::prelude::*;
use vstd::string::StringExecFns;
use crate::dispatcher::compose::{fields_text, metadata_line, EmbedField, FieldText};
use crate::utils::text::{
    chars_of, contains, lemma_strip_all_clean, string_of, strip, strip_all, texts_of,
};

verus! {

/// serenity's builder of the author block of a structured message. The
/// library hands it on and never looks inside.
#[verifier::external_type_specification]
#[verifier::external_body]
pub struct ExCreateEmbedAuthor(serenity::builder::CreateEmbedAuthor);

/// How far a notification has come.
#[derive(Debug, Clone, Copy, PartialEq, Eq, Structural)]
pub enum Stage {
    /// Nothing was sent yet.
    Composed,
    /// The message was posted with the content that notifies.
    Posted,
    /// The posted message was edited down to its lasting form.
    Cleaned,
}

/// What the channel answered to the last thing asked of it.
#[derive(Debug, Clone, Copy, PartialEq, Eq, Structural)]
pub enum DeliveryEvent {
    PostSucceeded,
    PostFailed,
    EditSucceeded,
    EditFailed,
}

/// What is to be done next with a notification.
#[derive(Debug, Clone, Copy, PartialEq, Eq, Structural)]
pub enum DeliveryAction {
    /// Edit the posted message: the content of the notification in place
    /// of the posted one, the author and the fields as they are.
    Edit,
    /// Report that the post failed. Nothing more is sent.
    ReportPostFailure,
    /// Report that the edit failed. The posted message stays as it is.
    ReportEditFailure,
    /// The notification has reached its lasting form.
    Finish,
    /// The answer belongs to no request that is open at this stage.
    Ignore,
}

/// A notification for one channel. `content` is what the message says
/// beside its fields: at first the metadata line and the tags, and from the
/// post on what is left of that for the edit.
#[derive(Debug)]
pub struct Notification {
    pub channel: serenity::model::id::ChannelId,
    pub author: serenity::builder::CreateEmbedAuthor,
    pub content: String,
    pub fields: Vec<EmbedField>,
    /// The metadata line, without its line break.
    pub metadata: String,
    /// The tags of the groups that are notified, in the order of the groups.
    pub tags: Vec<String>,
    pub stage: Stage,
}

/// The texts and values of a notification.
pub struct NotificationText {
    pub channel: serenity::model::id::ChannelId,
    pub author: serenity::builder::CreateEmbedAuthor,
    pub content: Seq<char>,
    pub fields: Seq<FieldText>,
    pub metadata: Seq<char>,
    pub tags: Seq<Seq<char>>,
    pub stage: Stage,
}

impl View for Notification {
    type V = NotificationText;

    open spec fn view(&self) -> NotificationText {
        NotificationText {
            channel: self.channel,
            author: self.author,
            content: self.content@,
            fields: fields_text(self.fields@),
            metadata: self.metadata@,
            tags: texts_of(self.tags@),
            stage: self.stage,
        }
    }
}

impl NotificationText {
    /// No tag is empty.
    pub open spec fn tags_nonempty(self) -> bool {
        forall|i: int| 0 <= i < self.tags.len() ==> (#[trigger] self.tags[i]).len() > 0
    }

    /// What is taken out of the content once the message is delivered: the
    /// tags, in their order, and then the metadata line.
    pub open spec fn transient(self) -> Seq<Seq<char>> {
        self.tags.push(metadata_line(self.metadata))
    }

    /// The content without its tags and without the metadata line.
    pub open spec fn cleaned_content(self) -> Seq<char> {
        strip_all(self.content, self.transient())
    }

    /// The notification after the channel's answer, and what is to be done
    /// next. A successful post leads to the edit, with the cleaned content;
    /// a successful edit ends the life of the notification. A failure is
    /// reported and changes nothing, and so does an answer that does not
    /// belong to the stage.
    pub open spec fn step(self, event: DeliveryEvent) -> (NotificationText, DeliveryAction) {
        match (self.stage, event) {
            (Stage::Composed, DeliveryEvent::PostSucceeded) => (
                NotificationText {
                    content: self.cleaned_content(),
                    stage: Stage::Posted,
                    ..self
                },
                DeliveryAction::Edit,
            ),
            (Stage::Composed, DeliveryEvent::PostFailed) => (
                self,
                DeliveryAction::ReportPostFailure,
            ),
            (Stage::Posted, DeliveryEvent::EditSucceeded) => (
                NotificationText { stage: Stage::Cleaned, ..self },
                DeliveryAction::Finish,
            ),
            (Stage::Posted, DeliveryEvent::EditFailed) => (self, DeliveryAction::ReportEditFailure),
            _ => (self, DeliveryAction::Ignore),
        }
    }
}

impl Notification {
    /// The content without its tags and without the metadata line.
    pub fn cleaned_content(&self) -> (r: String)
        ensures
            r@ == self@.cleaned_content(),
    {
        let mut patterns: Vec<Vec<char>> = Vec::new();
        let mut i: usize = 0;
        while i < self.tags.len()
            invariant
                i <= self.tags.len(),
                patterns@.len() == i,
                forall|j: int| 0 <= j < i ==> (#[trigger] patterns@[j])@ == self.tags@[j]@,
            decreases self.tags.len() - i,
        {
            patterns.push(chars_of(self.tags[i].as_str()));
            i = i + 1;
        }
        let mut line = String::from_str(self.metadata.as_str());
        line.append("\n");
        patterns.push(chars_of(line.as_str()));
        proof {
            assert(crate::utils::text::pattern_texts(patterns@) =~= self@.transient());
        }
        let stripped = strip(chars_of(self.content.as_str()), &patterns);
        string_of(&stripped)
    }

    /// Takes the channel's answer to the last request and says what is to
    /// be done next.
    pub fn advance(&mut self, event: DeliveryEvent) -> (action: DeliveryAction)
        ensures
            final(self)@ == old(self)@.step(event).0,
            action == old(self)@.step(event).1,
    {
        match (self.stage, event) {
            (Stage::Composed, DeliveryEvent::PostSucceeded) => {
                let cleaned = self.cleaned_content();
                self.content = cleaned;
                self.stage = Stage::Posted;
                DeliveryAction::Edit
            },
            (Stage::Composed, DeliveryEvent::PostFailed) => DeliveryAction::ReportPostFailure,
            (Stage::Posted, DeliveryEvent::EditSucceeded) => {
                self.stage = Stage::Cleaned;
                DeliveryAction::Finish
            },
            (Stage::Posted, DeliveryEvent::EditFailed) => DeliveryAction::ReportEditFailure,
            _ => DeliveryAction::Ignore,
        }
    }
}

/// After a post that succeeded and an edit that succeeded, no tag of the
/// notification stands in its content any more, nor does the metadata
/// line; the channel, the author and the fields are what they were.
pub proof fn lemma_post_then_edit_cleans(n: NotificationText)
    requires
        n.stage == Stage::Composed,
        n.tags_nonempty(),
    ensures
        ({
            let posted = n.step(DeliveryEvent::PostSucceeded);
            let cleaned = posted.0.step(DeliveryEvent::EditSucceeded);
            &&& posted.1 == DeliveryAction::Edit
            &&& cleaned.1 == DeliveryAction::Finish
            &&& cleaned.0.stage == Stage::Cleaned
            &&& forall|i: int|
                0 <= i < n.tags.len() ==> !contains(cleaned.0.content, #[trigger] n.tags[i])
            &&& !contains(cleaned.0.content, metadata_line(n.metadata))
            &&& cleaned.0.content == posted.0.content
            &&& cleaned.0.fields == n.fields
            &&& cleaned.0.author == n.author
            &&& cleaned.0.channel == n.channel
        }),
{
    let patterns = n.transient();
    lemma_strip_all_clean(n.content, patterns);
    reveal_strlit("\n");
    assert(patterns[n.tags.len() as int] == metadata_line(n.metadata));
    assert(metadata_line(n.metadata).len() > 0);
    assert forall|i: int| 0 <= i < n.tags.len() implies !contains(
        n.cleaned_content(),
        #[trigger] n.tags[i],
    ) by {
        assert(patterns[i] == n.tags[i]);
    }
}

} // verus!
