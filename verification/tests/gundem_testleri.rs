use discord_bot::gundem::{clean_html, entries, latest_agenda, link_id, rss_haberleri, tag_content};
use std::collections::hash_map::DefaultHasher;
use std::hash::{Hash, Hasher};

#[test]
fn rss_splits_into_items() {
    let xml = r#"<rss><channel><atom:link href="x"/><item><title><![CDATA[Başlık &amp; devam]]></title>
        <link>https://ornek.com/a</link><description><![CDATA[<p>özet <b>kalın</b></p>]]></description></item>
        <item><title>ikinci</title><link>https://ornek.com/b</link></item></channel></rss>"#;
    let mut list = Vec::new();
    for chunk in xml.split("<item").skip(1) {
        let chunk = chunk.split("</item>").next().unwrap();
        list.push((
            tag_content(chunk, "title").unwrap(),
            tag_content(chunk, "link").unwrap(),
            tag_content(chunk, "description").unwrap_or_default(),
        ));
    }
    assert_eq!(list[0].0, "Başlık & devam");
    assert_eq!(list[0].1, "https://ornek.com/a");
    assert_eq!(list[0].2, "özet kalın");
    assert_eq!(list[1].0, "ikinci");
}

#[test]
fn html_gets_cleaned() {
    let html = "<html><script>var a=1;</script><body><h1>Selam</h1>  <p>dünya &amp; ötesi</p></body></html>";
    assert_eq!(clean_html(html), "Selam dünya & ötesi");
}

#[test]
fn agenda_entries_parsed() {
    let text = "## 2026-09-01 10:00\nbir\niki\n\n## 2026-09-01 14:00\nüç";
    let result = entries(text);
    assert_eq!(result.len(), 2);
    assert_eq!(result[0], "## 2026-09-01 10:00\nbir\niki");
    assert_eq!(latest_agenda(text), text);
}

#[test]
fn rss_haberleri_ayiklanir() {
    let xml = r#"<rss><item><title>bir</title><link>https://a.com/1</link><description>&lt;b&gt;özet&lt;/b&gt;</description></item>
<item><title></title><link>https://a.com/2</link></item>
<item><title>ftp</title><link>ftp://a.com/3</link></item>
<item><title>iki</title><link>http://a.com/4</link></item></rss>"#;
    let l = rss_haberleri(xml).unwrap();
    assert_eq!(l.len(), 2);
    assert_eq!(l[0].title, "bir");
    assert_eq!(l[0].summary, "<b>özet</b>");
    assert_eq!(l[1].link, "http://a.com/4");
    assert_eq!(l[1].summary, "");
    assert!(rss_haberleri("<rss></rss>").is_err());
}

#[test]
fn son_uc_girdi_kalir() {
    let text = "önsöz\n## a\n1\n## b\n2\n## c\n3\n## d\n4\r\n";
    assert_eq!(entries(text).len(), 4);
    assert_eq!(latest_agenda(text), "## b\n2\n\n## c\n3\n\n## d\n4");
}

#[test]
fn stil_ve_yarim_script_temizlenir() {
    assert_eq!(clean_html("a<style>x{}</style>b"), "a b");
    assert_eq!(clean_html("a<script>kapanmadı"), "akapanmadı");
    assert_eq!(clean_html("&quot;x&quot; &#39;y&#39;&nbsp;z &lt;"), "\"x\" 'y' z <");
}

#[test]
fn link_id_std_hash_ile_ayni() {
    let link = "https://www.sozcu.com.tr/haber";
    let mut h = DefaultHasher::new();
    link.hash(&mut h);
    assert_eq!(link_id(link), h.finish());
    assert_ne!(link_id("a"), link_id("b"));
}

#[test]
fn gundem_girdileri_birlestirilip_geri_okunur() {
    let text = "giriş notu\n## 2024-01-01 10:00\nbirinci\n  devamı  \n\n## 2024-01-02 11:00\nikinci\n## 2024-01-03 12:00   \n";
    let ilk = entries(text);
    assert_eq!(ilk.len(), 3);
    let yeniden = ilk.join("\n\n");
    assert_eq!(entries(&yeniden), ilk);
}
