use noap_server::content::{Content, Shown};
use noap_server::http::{Body, Device, NotePage, PasskeyEntry, Progress, SessionEntry};
use noap_server::json::Json;
use noap_server::models::{
    Activity, ActivityTrigger, Bson, Label, Note, NoteSettings, NoteState, PaginateResponse,
    UserSettings,
};
use noap_server::models::{bson_rfc3339_option, object_id_hex};
use noap_server::object_id::ObjectId;
use noap_server::time::UtcTime;
use noap_server::utils::object_id_from_str;

const HEX: &str = "648a173ca6d551d5ee99e897";
const AT: UtcTime = UtcTime { secs: 1_790_087_359, nanos: 500_000_000 };
const WRITTEN: &str = "2026-09-22T14:29:19.500+00:00";

fn id() -> ObjectId {
    object_id_from_str(HEX).unwrap()
}

/// The content as compact text; stored values show as `stored`, JSON as `json`.
fn text(content: Content) -> String {
    match content {
        Content::Null => "null".to_string(),
        Content::Bool(b) => b.to_string(),
        Content::Int(n) => n.to_string(),
        Content::Text(s) => format!("{:?}", s),
        Content::List(items) => {
            let parts: Vec<String> = items.into_iter().map(text).collect();
            format!("[{}]", parts.join(","))
        }
        Content::Record(members) => {
            let parts: Vec<String> =
                members.into_iter().map(|(k, v)| format!("{}:{}", k, text(v))).collect();
            format!("{{{}}}", parts.join(","))
        }
        Content::Stored(_) => "stored".to_string(),
        Content::Json(_) => "json".to_string(),
    }
}

fn note() -> Note {
    Note {
        id: Some(id()),
        name: Some("Groceries".to_string()),
        body: None,
        labels: Some(vec![id()]),
        image: None,
        state: Some(Bson::ObjectId(id())),
        settings: None,
        author: "a".to_string(),
        pageLocation: Some("0".to_string()),
        createdAt: Some(AT),
        updatedAt: None,
    }
}

#[test]
fn activity_round_trips_the_shape_stored_in_mongo() {
    let text_of = |s: &str| Json::Text(s.to_string());
    let record = |members: Vec<(&str, Json)>| {
        Json::Object(members.into_iter().map(|(k, v)| (k.to_string(), v)).collect())
    };
    let doc = record(vec![
        ("_id", record(vec![("$oid", text_of("6ab290bf9c189ae12d54b155"))])),
        ("userId", record(vec![("$oid", text_of("648a173ca6d551d5ee99e897"))])),
        ("title", text_of("teste")),
        ("triggerType", text_of("once")),
        ("trigger", record(vec![("time", text_of("11:30")), ("date", text_of("22/09/2026"))])),
        ("enabled", Json::Bool(true)),
        ("createdAt", text_of("2026-09-22T14:29:19.563439220+00:00")),
    ]);
    let trigger = doc.get("trigger").unwrap();
    let created = Bson::Text(doc.text_or_empty("createdAt"));
    let activity = Activity {
        id: Some(object_id_hex::deserialize(doc.get("_id").unwrap()).unwrap()),
        userId: object_id_hex::deserialize(doc.get("userId").unwrap()).unwrap(),
        title: doc.text_or_empty("title"),
        description: doc.get_str("description").map(|s| s.to_string()),
        triggerType: doc.text_or_empty("triggerType"),
        trigger: ActivityTrigger {
            time: trigger.text_or_empty("time"),
            date: trigger.get_str("date").map(|s| s.to_string()),
            weekdays: None,
        },
        enabled: doc.get("enabled").and_then(|b| b.as_bool()).unwrap(),
        lastPushKey: None,
        noteId: None,
        seenOccurrences: None,
        doneDates: None,
        lastTriggeredAt: None,
        createdAt: bson_rfc3339_option::deserialize(&created).unwrap(),
        updatedAt: None,
    };
    assert_eq!(activity.createdAt, Some(UtcTime { secs: 1_790_087_359, nanos: 563_439_220 }));
    assert_eq!(activity.title, "teste");
    assert_eq!(activity.trigger.time, "11:30");
    assert_eq!(activity.trigger.date.as_deref(), Some("22/09/2026"));
    match activity.show() {
        Content::Record(members) => {
            let shown = |name: &str| members.iter().find(|m| m.0 == name).map(|m| &m.1);
            assert!(matches!(
                shown("userId"),
                Some(Content::Text(s)) if s == "648a173ca6d551d5ee99e897"
            ));
            assert!(matches!(
                shown("_id"),
                Some(Content::Text(s)) if s == "6ab290bf9c189ae12d54b155"
            ));
        }
        other => panic!("{}", text(other)),
    }
}

fn label() -> Label {
    Label {
        id: Some(id()),
        name: "home".to_string(),
        color: "red".to_string(),
        fontColor: None,
        label_type: "fancy".to_string(),
        userId: id(),
        createdAt: None,
        updatedAt: None,
    }
}

#[test]
fn messages_and_codes_are_shown() {
    assert_eq!(text(Body::Message("Updated!").show()), "{message:\"Updated!\"}");
    assert_eq!(text(Body::Coded("No", 3).show()), "{message:\"No\",code:3}");
    assert_eq!(text(Body::ResetWithTfa { user: id() }.show()), format!("{{code:5,userId:\"{HEX}\"}}"));
    assert_eq!(
        text(Body::OtpWait { spam: AT }.show()),
        format!("{{message:\"Wait at least a 2 minutes to send another email!\",spam:\"{WRITTEN}\",code:4}}")
    );
    assert_eq!(
        text(Body::PushSweep { checked: 3, pushed: 1 }.show()),
        "{message:\"Push sweep done\",checked:3,pushed:1}"
    );
    assert_eq!(text(Body::QrCode("data:x".to_string()).show()), "\"data:x\"");
}

#[test]
fn a_signed_in_user_is_shown_without_a_token() {
    let body = Body::SignedIn {
        id: id(),
        name: "Ana".to_string(),
        tfa_enabled: false,
        settings: Some(UserSettings { theme: Some("dark".to_string()), ..UserSettings::default() }),
        last_opened: None,
    };
    assert_eq!(
        text(body.show()),
        format!(
            "{{_id:\"{HEX}\",name:\"Ana\",TFAEnabled:false,settings:{{showPinnedNotesInFolder:null,\
             noteTextExpanded:null,globalNoteBackgroundColor:null,onLoginGoToLastOpenedNote:null,\
             noteVisualization:null,theme:\"dark\",language:null}},lastOpenedNote:null}}"
        )
    );
}

#[test]
fn a_note_is_shown_with_what_it_names() {
    let plain = Body::NoteFound { note: note(), state: None, labels: None };
    assert_eq!(
        text(plain.show()),
        format!(
            "{{note:{{_id:\"{HEX}\",name:\"Groceries\",body:null,labels:[\"{HEX}\"],image:null,\
             state:stored,author:\"a\",pageLocation:\"0\",createdAt:\"{WRITTEN}\"}}}}"
        )
    );
    let state = NoteState {
        id: None,
        state: "text".to_string(),
        noteId: None,
        createdAt: None,
        updatedAt: None,
    };
    let full = Body::NoteFound { note: note(), state: Some(state), labels: Some(vec![label()]) };
    assert_eq!(
        text(full.show()),
        format!(
            "{{note:{{_id:\"{HEX}\",name:\"Groceries\",body:null,labels:[{{_id:\"{HEX}\",\
             name:\"home\",color:\"red\",fontColor:null,type:\"fancy\",userId:\"{HEX}\"}}],\
             image:null,state:{{_id:\"\",state:\"text\"}},author:\"a\",pageLocation:\"0\",\
             createdAt:\"{WRITTEN}\"}}}}"
        )
    );
}

#[test]
fn pages_are_shown() {
    let settings = NoteSettings { pinned: Some(true), ..NoteSettings::default() };
    assert_eq!(
        text(settings.show()),
        "{shared:null,permissions:null,pinned:true,noteBackgroundColor:null}"
    );
    let page = NotePage { docs: vec![], totalDocs: 0, hasNextPage: false, totalPages: 0 };
    let body = Body::Notes { notes: page, pinned: None };
    assert_eq!(
        text(body.show()),
        "{notes:{docs:[],totalDocs:0,hasNextPage:false,totalPages:0},pinnedNotes:{}}"
    );
    let labels = Body::Labels(PaginateResponse {
        docs: vec![],
        totalDocs: 11,
        limit: 10,
        page: 1,
        totalPages: 2,
        hasNextPage: true,
        hasPrevPage: false,
        nextPage: Some(2),
        prevPage: None,
    });
    assert_eq!(
        text(labels.show()),
        "{docs:[],totalDocs:11,limit:10,page:1,totalPages:2,hasNextPage:true,hasPrevPage:false,\
         nextPage:2,prevPage:null}"
    );
}

#[test]
fn activities_and_their_progress_are_shown() {
    let activity = Activity {
        id: Some(id()),
        userId: id(),
        title: "teste".to_string(),
        description: None,
        triggerType: "once".to_string(),
        trigger: ActivityTrigger {
            time: "11:30".to_string(),
            date: Some("22/09/2026".to_string()),
            weekdays: None,
        },
        enabled: true,
        lastPushKey: None,
        noteId: None,
        seenOccurrences: None,
        doneDates: None,
        lastTriggeredAt: None,
        createdAt: Some(AT),
        updatedAt: None,
    };
    assert_eq!(
        text(Body::Activities(vec![activity]).show()),
        format!(
            "{{activities:[{{_id:\"{HEX}\",userId:\"{HEX}\",title:\"teste\",triggerType:\"once\",\
             trigger:{{time:\"11:30\",date:\"22/09/2026\"}},enabled:true,createdAt:\"{WRITTEN}\"}}]}}"
        )
    );
    let progress = Progress {
        noteId: None,
        doneDates: vec!["21/09/2026".to_string()],
        seenOccurrences: vec![],
        currentStreak: 1,
        totalCompletions: 1,
        doneToday: false,
        today: "22/09/2026".to_string(),
        lastDone: Some("21/09/2026".to_string()),
    };
    assert_eq!(
        text(Body::Completed { progress, date: "21/09/2026".to_string() }.show()),
        "{noteId:null,doneDates:[\"21/09/2026\"],seenOccurrences:[],currentStreak:1,\
         totalCompletions:1,doneToday:false,today:\"22/09/2026\",lastDone:\"21/09/2026\",\
         message:\"Activity marked as done!\",date:\"21/09/2026\"}"
    );
}

#[test]
fn lists_keep_secrets_back() {
    let entry = SessionEntry {
        id: None,
        userId: id(),
        expAt: 5,
        ip: "1.2.3.4".to_string(),
        browserData: "ua".to_string(),
        location: "x".to_string(),
        countryFlag: "f".to_string(),
        deviceData: Bson::Null,
        clientData: "ua".to_string(),
        createdAt: None,
        current: true,
    };
    assert_eq!(
        text(Body::Sessions(vec![entry]).show()),
        format!(
            "[{{userId:\"{HEX}\",expAt:5,ip:\"1.2.3.4\",browserData:\"ua\",location:\"x\",\
             countryFlag:\"f\",deviceData:stored,clientData:\"ua\",current:true}}]"
        )
    );
    let device = Device {
        endpoint: "https://p".to_string(),
        userAgent: None,
        createdAt: Some(AT),
        updatedAt: None,
    };
    assert_eq!(
        text(Body::Devices(vec![device]).show()),
        format!(
            "{{subscriptions:[{{endpoint:\"https://p\",userAgent:null,createdAt:\"{WRITTEN}\",\
             updatedAt:null}}]}}"
        )
    );
    let passkey = PasskeyEntry {
        cred_id: "c".to_string(),
        label: Some("Phone".to_string()),
        createdAt: None,
        lastUsedAt: None,
    };
    assert_eq!(
        text(Body::Passkeys(vec![passkey]).show()),
        "[{cred_id:\"c\",label:\"Phone\",createdAt:null,lastUsedAt:null}]"
    );
    let options = Body::PasskeyOptions { options: Json::Null, state_token: "t".to_string() };
    assert_eq!(text(options.show()), "{options:json,stateToken:\"t\"}");
}

#[test]
fn a_moment_outside_the_calendar_has_no_text() {
    assert_eq!(text(UtcTime { secs: i64::MAX, nanos: 0 }.show()), "null");
    assert_eq!(text(AT.show()), format!("\"{WRITTEN}\""));
}
