//! What a push notification says and whom it is sent to.

use crate::json::{members_of, push_member, push_value, values_of, Field, Json, JsonValue, Member};
use vstd::prelude::*;

verus! {

/// A browser that receives notifications.
#[derive(Clone, Debug)]
pub struct PushSubscription {
    pub endpoint: String,
    pub p256dh: String,
    pub auth: String,
}

/// Where a click on a notification leads.
#[derive(Clone)]
pub struct PushNotificationData {
    pub url: String,
}

/// A button of a notification.
#[derive(Clone)]
pub struct PushNotificationAction {
    pub action: String,
    pub title: String,
    pub icon: String,
}

/// A notification.
#[derive(Clone)]
pub struct PushNotificationPayload {
    pub title: String,
    pub body: String,
    pub actions: Vec<PushNotificationAction>,
    pub tag: Option<String>,
    pub data: PushNotificationData,
}

/// The JSON form of a button.
pub open spec fn action_json(action: PushNotificationAction) -> JsonValue {
    JsonValue::Object(
        Seq::empty().push(Field { name: "action"@, value: JsonValue::String(action.action@) }).push(
            Field { name: "title"@, value: JsonValue::String(action.title@) },
        ).push(Field { name: "icon"@, value: JsonValue::String(action.icon@) }),
    )
}

/// The JSON forms of a sequence of buttons.
pub open spec fn actions_json(actions: Seq<PushNotificationAction>) -> Seq<JsonValue> {
    Seq::new(actions.len(), |i: int| action_json(actions[i]))
}

impl PushNotificationAction {
    /// A button.
    pub fn new(action: &str, title: &str, icon: &str) -> (r: Self)
        ensures
            r.action@ == action@,
            r.title@ == title@,
            r.icon@ == icon@,
    {
        PushNotificationAction {
            action: action.to_owned(),
            title: title.to_owned(),
            icon: icon.to_owned(),
        }
    }

    /// The JSON form of the button.
    pub fn to_json(&self) -> (r: Json)
        ensures
            r@ == action_json(*self),
    {
        let mut fields: Vec<Member> = Vec::new();
        assert(members_of(fields@) =~= Seq::empty());
        push_member(&mut fields, "action", Json::string(self.action.as_str()));
        push_member(&mut fields, "title", Json::string(self.title.as_str()));
        push_member(&mut fields, "icon", Json::string(self.icon.as_str()));
        Json::object(fields)
    }
}

impl PushNotificationPayload {
    /// A notification with the given title and body. A click leads to
    /// `url`, or to `/` where none is given; there are no buttons unless
    /// some are given.
    pub fn new(
        title: &str,
        body: &str,
        url: Option<&str>,
        actions: Option<Vec<PushNotificationAction>>,
        tag: Option<&str>,
    ) -> (r: Self)
        ensures
            r.title@ == title@,
            r.body@ == body@,
            r.actions@ == match actions {
                Some(actions) => actions@,
                None => Seq::empty(),
            },
            match tag {
                Some(tag) => r.tag is Some && r.tag->0@ == tag@,
                None => r.tag is None,
            },
            r.data.url@ == match url {
                Some(url) => url@,
                None => "/"@,
            },
    {
        PushNotificationPayload {
            title: title.to_owned(),
            body: body.to_owned(),
            actions: match actions {
                Some(actions) => actions,
                None => Vec::new(),
            },
            tag: match tag {
                Some(tag) => Some(tag.to_owned()),
                None => None,
            },
            data: PushNotificationData {
                url: match url {
                    Some(url) => url.to_owned(),
                    None => "/".to_owned(),
                },
            },
        }
    }

    /// The members of the JSON form: title, body and buttons, the tag
    /// where there is one, and the data.
    pub open spec fn members(&self) -> Seq<Field> {
        let base = Seq::empty().push(
            Field { name: "title"@, value: JsonValue::String(self.title@) },
        ).push(Field { name: "body"@, value: JsonValue::String(self.body@) }).push(
            Field { name: "actions"@, value: JsonValue::Array(actions_json(self.actions@)) },
        );
        let tagged = match self.tag {
            Some(tag) => base.push(Field { name: "tag"@, value: JsonValue::String(tag@) }),
            None => base,
        };
        tagged.push(
            Field {
                name: "data"@,
                value: JsonValue::Object(
                    Seq::empty().push(
                        Field { name: "url"@, value: JsonValue::String(self.data.url@) },
                    ),
                ),
            },
        )
    }

    /// The JSON form of the notification.
    pub fn to_json(&self) -> (r: Json)
        ensures
            r@ == JsonValue::Object(self.members()),
    {
        let ghost all = actions_json(self.actions@);
        let mut items: Vec<Json> = Vec::new();
        let mut i: usize = 0;
        assert(values_of(items@) =~= all.take(0));
        while i < self.actions.len()
            invariant
                i <= self.actions@.len(),
                all == actions_json(self.actions@),
                values_of(items@) == all.take(i as int),
            decreases self.actions@.len() - i,
        {
            push_value(&mut items, self.actions[i].to_json());
            assert(all.take(i + 1) =~= all.take(i as int).push(action_json(self.actions@[i as int])));
            i += 1;
        }
        assert(all.take(self.actions@.len() as int) =~= all);
        let mut data: Vec<Member> = Vec::new();
        assert(members_of(data@) =~= Seq::empty());
        push_member(&mut data, "url", Json::string(self.data.url.as_str()));
        let mut fields: Vec<Member> = Vec::new();
        assert(members_of(fields@) =~= Seq::empty());
        push_member(&mut fields, "title", Json::string(self.title.as_str()));
        push_member(&mut fields, "body", Json::string(self.body.as_str()));
        push_member(&mut fields, "actions", Json::array(items));
        match &self.tag {
            Some(tag) => push_member(&mut fields, "tag", Json::string(tag.as_str())),
            None => {},
        }
        push_member(&mut fields, "data", Json::object(data));
        Json::object(fields)
    }
}

} // verus!
